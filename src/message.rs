use crate::error::SquishError;
use vstd::prelude::*;

verus! {

// The squash commit's message, built from the summaries of the commits it
// replaces.

/// Text used for a commit, other than the oldest, whose message has no summary.
pub open spec fn placeholder_summary() -> Seq<char> {
    "(no subject)"@
}

/// Failure text when there is nothing to squash.
pub open spec fn empty_range_text() -> Seq<char> {
    "No commits found in the range to squash"@
}

/// Failure text when the oldest commit has no summary to title the squash.
pub open spec fn no_title_text() -> Seq<char> {
    "First commit has no message"@
}

/// The line a commit contributes to the squash message's list.
pub open spec fn summary_text(summary: Option<String>) -> Seq<char> {
    match summary {
        Some(s) => s@,
        None => placeholder_summary(),
    }
}

/// One `* <summary>` line per commit, oldest first.
pub open spec fn bullet_list(summaries: Seq<Seq<char>>) -> Seq<char>
    decreases summaries.len(),
{
    if summaries.len() == 0 {
        Seq::empty()
    } else {
        bullet_list(summaries.drop_last()) + "* "@ + summaries.last() + "\n"@
    }
}

/// The squash message: the oldest summary as title, a blank line, the heading
/// `Squashed commits:`, then the list of all summaries.
pub open spec fn squash_message(summaries: Seq<Seq<char>>) -> Seq<char> {
    summaries[0] + "\n\nSquashed commits:\n"@ + bullet_list(summaries)
}

/// The summaries of a commit range, with the placeholder for missing ones.
pub open spec fn summary_texts(summaries: Seq<Option<String>>) -> Seq<Seq<char>> {
    summaries.map_values(|s: Option<String>| summary_text(s))
}

fn placeholder_text() -> (r: String)
    ensures
        r@ == placeholder_summary(),
{
    String::from_str("(no subject)")
}

/// The squash message for a range whose summaries, oldest first, are
/// `summaries`: an error when the range is empty or its oldest commit has no
/// summary.
pub fn compose_squash_message(summaries: &Vec<Option<String>>) -> (r: Result<String, SquishError>)
    ensures
        summaries@.len() == 0 ==> (r matches Err(SquishError::Other { message: m }) && m@
            == empty_range_text()),
        summaries@.len() > 0 && summaries@[0] is None ==> (r matches Err(
            SquishError::Other { message: m },
        ) && m@ == no_title_text()),
        summaries@.len() > 0 && summaries@[0] is Some ==> (r matches Ok(m) && m@ == squash_message(
            summary_texts(summaries@),
        )),
{
    if summaries.len() == 0 {
        return Err(
            SquishError::Other {
                message: String::from_str("No commits found in the range to squash"),
            },
        );
    }
    let mut msg = match &summaries[0] {
        Some(title) => title.clone(),
        None => {
            return Err(
                SquishError::Other { message: String::from_str("First commit has no message") },
            );
        },
    };
    msg.append("\n\nSquashed commits:\n");
    let ghost texts = summary_texts(summaries@);
    let ghost head = msg@;
    assert(head == texts[0] + "\n\nSquashed commits:\n"@);
    let mut i: usize = 0;
    while i < summaries.len()
        invariant
            i <= summaries@.len(),
            texts == summary_texts(summaries@),
            msg@ == head + bullet_list(texts.subrange(0, i as int)),
        decreases summaries@.len() - i,
    {
        let line = match &summaries[i] {
            Some(s) => s.clone(),
            None => placeholder_text(),
        };
        assert(line@ == texts[i as int]);
        msg.append("* ");
        msg.append(line.as_str());
        msg.append("\n");
        proof {
            let next = texts.subrange(0, i + 1);
            assert(next.drop_last() =~= texts.subrange(0, i as int));
            assert(next.last() == texts[i as int]);
        }
        i = i + 1;
    }
    assert(texts.subrange(0, summaries@.len() as int) =~= texts);
    Ok(msg)
}

} // verus!
