//! The quotation module: one of the configured quotations, picked at
//! random and folded to the width of the screen.

use vstd::prelude::*;
use rand::seq::SliceRandom;
use crate::config::{Config, ModuleSpec, ModuleType, QuoteConfig, modules_view};
use crate::render::{Report, quote_count};
use crate::text::{owned, split_words, strings_view, words_of};

verus! {

/// The length in bytes of a text in UTF-8, as a machine word.
pub open spec fn byte_len(s: Seq<char>) -> usize {
    vstd::utf8::encode_utf8(s).len() as usize
}

/// The finished lines and the line being filled.
pub type Folding = (Seq<Seq<char>>, Seq<char>);

/// Takes one more word: where the line being filled is not empty and the
/// word, with a space before it, would carry it past `width` bytes, that
/// line is finished and the word starts the next; else the word joins the
/// line, after a space unless the line is empty.
pub open spec fn fold_word(state: Folding, word: Seq<char>, width: nat) -> Folding {
    let (lines, current) = state;
    if byte_len(current) + byte_len(word) + 1 > width && current.len() > 0 {
        (lines.push(current), word)
    } else if current.len() > 0 {
        (lines, current + seq![' '] + word)
    } else {
        (lines, word)
    }
}

/// The state after all of `words` have been taken, in order.
pub open spec fn fold_words(words: Seq<Seq<char>>, width: nat) -> Folding
    decreases words.len(),
{
    if words.len() == 0 {
        (Seq::empty(), Seq::empty())
    } else {
        fold_word(fold_words(words.drop_last(), width), words.last(), width)
    }
}

/// The words laid out greedily on lines of at most `width` bytes; a word
/// longer than that has a line to itself.
pub open spec fn folded(words: Seq<Seq<char>>, width: nat) -> Seq<Seq<char>> {
    let (lines, current) = fold_words(words, width);
    if current.len() > 0 {
        lines.push(current)
    } else {
        lines
    }
}

/// The widest a line of a quotation may be, in bytes.
pub open spec fn quote_width() -> nat {
    80
}

/// The notice shown where no quotation is configured.
pub open spec fn no_quotes_notice() -> Seq<Seq<char>> {
    seq![" Add quotes to your config!"@]
}

/// Lays the words out on lines of at most `max_width` bytes.
pub fn wrap_words(words: &Vec<String>, max_width: usize) -> (lines: Vec<String>)
    ensures
        strings_view(lines@) == folded(strings_view(words@), max_width as nat),
{
    let ghost all = strings_view(words@);
    let mut lines: Vec<String> = Vec::new();
    let mut current = String::new();
    let mut i: usize = 0;
    proof {
        assert(all.take(0) =~= Seq::<Seq<char>>::empty());
        assert(strings_view(lines@) =~= Seq::<Seq<char>>::empty());
    }
    while i < words.len()
        invariant
            i <= words@.len(),
            all == strings_view(words@),
            (strings_view(lines@), current@) == fold_words(all.take(i as int), max_width as nat),
        decreases words@.len() - i,
    {
        proof {
            assert(all.take(i + 1).drop_last() =~= all.take(i as int));
            assert(all.take(i + 1).last() == words@[i as int]@);
        }
        let ghost done = strings_view(lines@);
        let ghost filling = current@;
        let word = words[i].as_str();
        let taken: u128 = (current.as_str().len() as u128) + (word.len() as u128) + 1;
        if taken > max_width as u128 && !current.as_str().is_empty() {
            lines.push(current);
            current = owned(word);
            proof {
                assert(strings_view(lines@) =~= done.push(filling));
            }
        } else if !current.as_str().is_empty() {
            current.push(' ');
            current.append(word);
            proof {
                assert(current@ =~= filling + seq![' '] + word@);
            }
        } else {
            current = owned(word);
        }
        i += 1;
    }
    proof {
        assert(all.take(i as int) =~= all);
    }
    if !current.as_str().is_empty() {
        let ghost done = strings_view(lines@);
        lines.push(current);
        proof {
            assert(strings_view(lines@) =~= done.push(current@));
        }
    }
    lines
}

/// Whether `quote` is the text of one of `quotes`.
pub open spec fn is_one_of(quote: Seq<char>, quotes: Seq<String>) -> bool {
    exists|i: int| 0 <= i < quotes.len() && #[trigger] quotes[i]@ == quote
}

/// Trusted: `SliceRandom::choose` of rand on a slice, with the generator of
/// `rand::thread_rng`. It returns nothing for an empty slice and otherwise
/// one of the slice's elements, which one being left to chance. The
/// generator is seeded from the operating system on its first use in a
/// thread, and panics there if the system has no entropy to give.
#[verifier::external_body]
fn choose_quote(quotes: &Vec<String>) -> (pick: Option<&String>)
    ensures
        pick is None <==> quotes@.len() == 0,
        pick is Some ==> is_one_of(pick->0@, quotes@),
{
    quotes.choose(&mut rand::thread_rng())
}

/// The report of the quotation module for a quotation already picked: its
/// words folded to the screen's width, or the dimmed notice where there was
/// none to pick.
pub fn quote_report(pick: Option<&String>) -> (report: Report)
    ensures
        pick is None ==> report.dimmed && strings_view(report.lines@) == no_quotes_notice(),
        pick is Some ==> !report.dimmed && strings_view(report.lines@) == folded(
            words_of(pick->0@),
            quote_width(),
        ),
{
    match pick {
        Some(quote) => {
            let words = split_words(quote.as_str());
            Report { lines: wrap_words(&words, 80), dimmed: false }
        },
        None => {
            let mut lines: Vec<String> = Vec::new();
            lines.push(owned(" Add quotes to your config!"));
            proof {
                assert(strings_view(lines@) =~= no_quotes_notice());
            }
            Report { lines, dimmed: true }
        },
    }
}

/// Whether `report` is a report of the quotation module for the given
/// quotations: one of them folded to the screen's width, or the dimmed
/// notice where there is none.
pub open spec fn is_quote_report(report: Report, quotes: Seq<String>) -> bool {
    &&& quotes.len() == 0 ==> report.dimmed && strings_view(report.lines@) == no_quotes_notice()
    &&& quotes.len() > 0 ==> !report.dimmed && exists|i: int|
        0 <= i < quotes.len() && strings_view(report.lines@) == folded(
            words_of(#[trigger] quotes[i]@),
            quote_width(),
        )
}

/// The report of the quotation module: one of the configured quotations,
/// whichever chance picks, folded to the screen's width; the dimmed notice
/// where none is configured, in which case chance is not asked.
pub fn render_quote(config: &QuoteConfig) -> (report: Report)
    ensures
        is_quote_report(report, config.quotes@),
{
    if config.quotes.len() == 0 {
        quote_report(None)
    } else {
        quote_report(choose_quote(&config.quotes))
    }
}

/// The number of reports that a frame needs: one for each quotation module
/// of the build list where the optional section is present, none where it
/// is not.
pub open spec fn reports_needed(config: &Config) -> nat {
    if config.custom is Some {
        quote_count(config.build_list())
    } else {
        0
    }
}

/// The reports of the quotation modules for one frame: for each quotation
/// module of the build list a report of its own, each picked afresh.
pub fn quote_reports(config: &Config) -> (reports: Vec<Report>)
    ensures
        reports@.len() == reports_needed(config),
        forall|k: int|
            0 <= k < reports@.len() ==> is_quote_report(
                #[trigger] reports@[k],
                config.custom->0.quote.quotes@,
            ),
{
    let mut reports: Vec<Report> = Vec::new();
    match &config.custom {
        None => {},
        Some(custom) => {
            let modules = config.get_ordered_modules();
            let ghost build = config.build_list();
            let mut i: usize = 0;
            proof {
                assert(build.take(0) =~= Seq::<ModuleSpec>::empty());
            }
            while i < modules.len()
                invariant
                    i <= modules@.len(),
                    build == modules_view(modules@),
                    config.custom == Some(*custom),
                    reports@.len() == quote_count(build.take(i as int)),
                    reports@.len() <= i,
                    forall|k: int|
                        0 <= k < reports@.len() ==> is_quote_report(
                            #[trigger] reports@[k],
                            custom.quote.quotes@,
                        ),
                decreases modules@.len() - i,
            {
                proof {
                    assert(build.take(i + 1).drop_last() =~= build.take(i as int));
                    assert(build.take(i + 1).last() == modules@[i as int]@);
                }
                match &modules[i].module_type {
                    ModuleType::Quote => {
                        reports.push(render_quote(&custom.quote));
                    },
                    _ => {},
                }
                i += 1;
            }
            proof {
                assert(build.take(i as int) =~= build);
            }
        },
    }
    reports
}

} // verus!
