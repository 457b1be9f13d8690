//! The record of one analysed document.

use vstd::prelude::*;
use vstd::string::StringExecFns;
use crate::decimal::{append_decimal, decimal};
use crate::headings::{count_headings_in, heading_count};
use crate::links::{count_links_in, link_count};
use crate::readability::{
    count_sentences_in, readability, readability_tenths, reading_time, reading_time_minutes,
    sentence_count,
};
use crate::words::{count_words_in, word_count};
use crate::text::chars_of;

verus! {

/// The statistics of one document.
#[derive(Debug, Clone, PartialEq, Eq)]
pub struct FileStats {
    /// The path that names the document.
    pub file: String,
    /// The number of words.
    pub words: usize,
    /// The number of headings.
    pub headings: usize,
    /// The number of links.
    pub links: usize,
    /// The estimated reading time in minutes.
    pub reading_time_min: usize,
    /// The readability score in tenths of a point, from 0 to 1000.
    pub readability_tenths: u32,
}

/// What a [`FileStats`] holds, as mathematical values.
pub struct StatsModel {
    pub file: Seq<char>,
    pub words: nat,
    pub headings: nat,
    pub links: nat,
    pub reading_time_min: nat,
    pub readability_tenths: nat,
}

impl View for FileStats {
    type V = StatsModel;

    open spec fn view(&self) -> StatsModel {
        StatsModel {
            file: self.file@,
            words: self.words as nat,
            headings: self.headings as nat,
            links: self.links as nat,
            reading_time_min: self.reading_time_min as nat,
            readability_tenths: self.readability_tenths as nat,
        }
    }
}

impl StatsModel {
    /// Whether the derived fields agree with the rest: the reading time is the
    /// one of the word count, and the score lies between 0 and 100 points.
    pub open spec fn is_consistent(self) -> bool {
        &&& self.reading_time_min == reading_time(self.words)
        &&& self.readability_tenths <= 1000
    }
}

/// The statistics of the document named `path` whose text is `content`.
pub open spec fn stats_of(path: Seq<char>, content: Seq<char>) -> StatsModel {
    StatsModel {
        file: path,
        words: word_count(content),
        headings: heading_count(content),
        links: link_count(content),
        reading_time_min: reading_time(word_count(content)),
        readability_tenths: readability(word_count(content), sentence_count(content)) as nat,
    }
}

/// The statistics of any document are consistent.
pub proof fn lemma_stats_of_consistent(path: Seq<char>, content: Seq<char>)
    ensures
        stats_of(path, content).is_consistent(),
        stats_of(path, content).file == path,
{
}

/// Analyses the document named `path`. `content` is its text, or `None` where
/// the document could not be read: then there is no record, and that is no
/// failure of the analysis, which cannot fail.
pub fn analyze_markdown_file(path: &str, content: Option<&str>) -> (stats: Option<FileStats>)
    ensures
        match content {
            Some(text) => stats matches Some(s) && s@ == stats_of(path@, text@) && s@.is_consistent(),
            None => stats is None,
        },
{
    match content {
        None => None,
        Some(text) => {
            let chars = chars_of(text);
            let words = count_words_in(&chars);
            let sentences = count_sentences_in(&chars);
            Some(
                FileStats {
                    file: path.to_owned(),
                    words,
                    headings: count_headings_in(&chars),
                    links: count_links_in(&chars),
                    reading_time_min: reading_time_minutes(words),
                    readability_tenths: readability_tenths(words, sentences),
                },
            )
        },
    }
}

/// A score of `tenths` tenths written with one decimal place.
pub open spec fn score_text(tenths: nat) -> Seq<char> {
    decimal(tenths / 10) + "."@ + decimal(tenths % 10)
}

/// The block of text that reports `stats`: the path, one labelled line for each
/// value, and a rule followed by an empty line.
pub open spec fn summary_text(stats: StatsModel) -> Seq<char> {
    "📄 Analyzed: "@ + stats.file
        + "\n• Words:            "@ + decimal(stats.words)
        + "\n• Headings:         "@ + decimal(stats.headings)
        + "\n• Links:            "@ + decimal(stats.links)
        + "\n• Reading Time:     "@ + decimal(stats.reading_time_min)
        + " min\n• Readability Score: "@ + score_text(stats.readability_tenths)
        + "\n────────────────────────────────────\n\n"@
}

/// Writes the report of `stats` as a block of text.
pub fn summary(stats: &FileStats) -> (text: String)
    ensures
        text@ == summary_text(stats@),
{
    let mut text = String::new();
    text.append("📄 Analyzed: ");
    text.append(stats.file.as_str());
    text.append("\n• Words:            ");
    append_decimal(&mut text, stats.words);
    text.append("\n• Headings:         ");
    append_decimal(&mut text, stats.headings);
    text.append("\n• Links:            ");
    append_decimal(&mut text, stats.links);
    text.append("\n• Reading Time:     ");
    append_decimal(&mut text, stats.reading_time_min);
    text.append(" min\n• Readability Score: ");
    append_decimal(&mut text, (stats.readability_tenths / 10) as usize);
    text.append(".");
    append_decimal(&mut text, (stats.readability_tenths % 10) as usize);
    text.append("\n────────────────────────────────────\n\n");
    text
}

} // verus!
