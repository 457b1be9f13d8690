//! Sample documents to try the analysis on.

use vstd::prelude::*;
use vstd::string::StringExecFns;
use crate::decimal::{append_decimal, decimal};

verus! {

/// The number of paragraphs of a sample document.
pub const SAMPLE_PARAGRAPHS: usize = 50;

/// Paragraph `i` of a sample document: a sentence that names `i`, a link after
/// every tenth paragraph and a subheading after every seventh, counted from 0.
pub open spec fn sample_paragraph(i: nat) -> Seq<char> {
    "Paragraph "@ + decimal(i) + " with some content. "@ + (if i % 10 == 0 {
        "[Click here](https://example.com) "@
    } else {
        Seq::empty()
    }) + (if i % 7 == 0 {
        "## Subheading\n"@
    } else {
        Seq::empty()
    })
}

/// The first `n` paragraphs of a sample document, one after the other.
pub open spec fn sample_body(n: nat) -> Seq<char>
    decreases n,
{
    if n == 0 {
        Seq::empty()
    } else {
        sample_body((n - 1) as nat) + sample_paragraph((n - 1) as nat)
    }
}

/// Sample document number `index`: a title that names `index`, an empty line
/// and fifty paragraphs.
pub open spec fn sample_document(index: nat) -> Seq<char> {
    "# File "@ + decimal(index) + "\n\n"@ + sample_body(SAMPLE_PARAGRAPHS as nat)
}

/// Writes sample document number `index`.
pub fn generate_markdown_content(index: usize) -> (document: String)
    ensures
        document@ == sample_document(index as nat),
{
    let mut document = String::new();
    document.append("# File ");
    append_decimal(&mut document, index);
    document.append("\n\n");
    let ghost heading = document@;
    let mut i: usize = 0;
    while i < SAMPLE_PARAGRAPHS
        invariant
            0 <= i <= SAMPLE_PARAGRAPHS,
            document@ == heading + sample_body(i as nat),
        decreases SAMPLE_PARAGRAPHS - i,
    {
        document.append("Paragraph ");
        append_decimal(&mut document, i);
        document.append(" with some content. ");
        if i % 10 == 0 {
            document.append("[Click here](https://example.com) ");
        }
        if i % 7 == 0 {
            document.append("## Subheading\n");
        }
        i = i + 1;
    }
    document
}

} // verus!
