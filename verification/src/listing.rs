//! The list of active silences, as it is shown to the operator.

use vstd::prelude::*;
use crate::json::{elements, Json, JsonView};
use crate::pattern::Pattern;
use crate::text::{decimal, decimal_text, lemma_texts_push, texts};

verus! {

/// One silenced entry, with a default in place of each field that the
/// service left out.
#[derive(Debug, PartialEq, Eq)]
pub struct SilenceRecord {
    pub subscription: String,
    pub check: String,
    pub expire: Option<u64>,
    pub expire_on_resolve: bool,
    pub user: String,
}

/// The mathematical model of a [`SilenceRecord`].
pub struct RecordView {
    pub subscription: Seq<char>,
    pub check: Seq<char>,
    pub expire: Option<u64>,
    pub expire_on_resolve: bool,
    pub user: Seq<char>,
}

impl View for SilenceRecord {
    type V = RecordView;

    open spec fn view(&self) -> RecordView {
        RecordView {
            subscription: self.subscription@,
            check: self.check@,
            expire: self.expire,
            expire_on_resolve: self.expire_on_resolve,
            user: self.user@,
        }
    }
}

/// The text of the member `key` of `entry`, or `default` where the member is
/// missing or is no string.
pub open spec fn text_or(entry: JsonView, key: Seq<char>, default: Seq<char>) -> Seq<char> {
    match entry.get(key) {
        Some(JsonView::String(s)) => s,
        _ => default,
    }
}

/// The record that an entry of the silenced list gives; `None` for an entry
/// that is no object. A missing creator reads "unknown", a missing
/// subscription or check "all"; a missing expiration stays absent, and a
/// missing flag is false.
pub open spec fn record_of(entry: JsonView) -> Option<RecordView> {
    if entry is Object {
        Some(
            RecordView {
                subscription: text_or(entry, "subscription"@, "all"@),
                check: text_or(entry, "check"@, "all"@),
                expire: match entry.get("expire"@) {
                    Some(n) => n.as_u64(),
                    None => None,
                },
                expire_on_resolve: match entry.get("expire_on_resolve"@) {
                    Some(JsonView::Bool(b)) => b,
                    _ => false,
                },
                user: text_or(entry, "creator"@, "unknown"@),
            },
        )
    } else {
        None
    }
}

impl RecordView {
    /// The lines that show the record, each ended by a line break.
    pub open spec fn text(self) -> Seq<char> {
        "\tSubscription:\t\t"@ + self.subscription + "\n\tCheck:\t\t\t"@ + self.check
            + "\n\tExpiration:\t\t"@ + (match self.expire {
            Some(n) => decimal_text(n as nat),
            None => "never"@,
        }) + "\n\tExpire on resolve:\t"@ + (if self.expire_on_resolve {
            "true"@
        } else {
            "false"@
        }) + "\n\tUser:\t\t\t"@ + self.user + "\n"@
    }

    /// Whether the record passes both filters.
    pub open spec fn passes(self, sub: Pattern, chk: Pattern) -> bool {
        sub.accepts(self.subscription) && chk.accepts(self.check)
    }
}

/// What is shown for one entry, given whether its subscription and its
/// check matched their patterns: the record's lines where both did, nothing
/// otherwise.
pub open spec fn shown_if(entry: JsonView, sub_ok: bool, chk_ok: bool) -> Option<Seq<char>> {
    match record_of(entry) {
        Some(record) => if sub_ok && chk_ok {
            Some(record.text())
        } else {
            None
        },
        None => None,
    }
}

/// What is shown for one entry under the two patterns.
pub open spec fn shown(sub: Pattern, chk: Pattern) -> spec_fn(JsonView) -> Option<Seq<char>> {
    |entry: JsonView|
        match record_of(entry) {
            Some(record) => shown_if(
                entry,
                sub.accepts(record.subscription),
                chk.accepts(record.check),
            ),
            None => None,
        }
}

/// The notice that leads the list.
pub open spec fn header_text() -> Seq<char> {
    "Active silences:"@
}

/// The notice for an empty list.
pub open spec fn no_silences_text() -> Seq<char> {
    "\tNo silences"@
}

/// The notices for the body of a reply to "list silenced entries": for an
/// empty array the "no silences" notice; for any other array the record of
/// each entry that passes both filters, in order; nothing for a body that is
/// no array.
pub open spec fn listing_notices(body: Option<JsonView>, sub: Pattern, chk: Pattern) -> Seq<
    Seq<char>,
> {
    match body {
        Some(JsonView::Array(entries)) => if entries.len() == 0 {
            seq![no_silences_text()]
        } else {
            entries.filter_map(shown(sub, chk))
        },
        _ => Seq::empty(),
    }
}

fn text_member(entry: &Json, key: &str, default: &str) -> (s: String)
    ensures
        s@ == text_or(entry@, key@, default@),
{
    match entry.get(key) {
        Some(Json::String(s)) => s.clone(),
        _ => String::from_str(default),
    }
}

impl SilenceRecord {
    /// Reads the record that an entry of the silenced list gives.
    pub fn read(entry: &Json) -> (record: Option<SilenceRecord>)
        ensures
            match record {
                Some(r) => record_of(entry@) == Some(r@),
                None => record_of(entry@) is None,
            },
    {
        match entry {
            Json::Object(_) => {
                let expire = match entry.get("expire") {
                    Some(n) => n.as_u64(),
                    None => None,
                };
                let expire_on_resolve = match entry.get("expire_on_resolve") {
                    Some(Json::Bool(b)) => *b,
                    _ => false,
                };
                Some(
                    SilenceRecord {
                        subscription: text_member(entry, "subscription", "all"),
                        check: text_member(entry, "check", "all"),
                        expire,
                        expire_on_resolve,
                        user: text_member(entry, "creator", "unknown"),
                    },
                )
            },
            _ => None,
        }
    }

    /// The lines that show the record.
    pub fn text(&self) -> (s: String)
        ensures
            s@ == self@.text(),
    {
        let expiration = match self.expire {
            Some(n) => decimal(n),
            None => String::from_str("never"),
        };
        let flag = if self.expire_on_resolve {
            "true"
        } else {
            "false"
        };
        String::from_str("\tSubscription:\t\t").concat(self.subscription.as_str()).concat(
            "\n\tCheck:\t\t\t",
        ).concat(self.check.as_str()).concat("\n\tExpiration:\t\t").concat(
            expiration.as_str(),
        ).concat("\n\tExpire on resolve:\t").concat(flag).concat("\n\tUser:\t\t\t").concat(
            self.user.as_str(),
        ).concat("\n")
    }
}

/// What is shown for one entry, given whether its subscription and its
/// check matched their patterns.
pub fn show_if(entry: &Json, sub_ok: bool, chk_ok: bool) -> (line: Option<String>)
    ensures
        match line {
            Some(s) => shown_if(entry@, sub_ok, chk_ok) == Some(s@),
            None => shown_if(entry@, sub_ok, chk_ok) is None,
        },
{
    match SilenceRecord::read(entry) {
        Some(record) => if sub_ok && chk_ok {
            Some(record.text())
        } else {
            None
        },
        None => None,
    }
}

/// The notices for the body of a reply to "list silenced entries".
pub fn list_notices(body: &Option<Json>, sub: &Pattern, chk: &Pattern) -> (notices: Vec<String>)
    ensures
        texts(notices@) == listing_notices(
            match body {
                Some(j) => Some(j@),
                None => None,
            },
            *sub,
            *chk,
        ),
{
    let mut notices: Vec<String> = Vec::new();
    let entries = match body {
        Some(Json::Array(entries)) => {
            assert(body->Some_0@->Array_0 =~= elements(entries@));
            entries
        },
        _ => {
            return notices;
        },
    };
    if entries.len() == 0 {
        notices.push(String::from_str("\tNo silences"));
        return notices;
    }
    let ghost all = elements(entries@);
    let ghost f = shown(*sub, *chk);
    let mut i: usize = 0;
    while i < entries.len()
        invariant
            i <= entries.len(),
            all == elements(entries@),
            f == shown(*sub, *chk),
            texts(notices@) == all.take(i as int).filter_map(f),
        decreases entries.len() - i,
    {
        proof {
            all.lemma_filter_map_take_succ(f, i as int);
        }
        if let Some(record) = SilenceRecord::read(&entries[i]) {
            let sub_ok = sub.is_match(record.subscription.as_str());
            let chk_ok = chk.is_match(record.check.as_str());
            if let Some(line) = show_if(&entries[i], sub_ok, chk_ok) {
                proof {
                    lemma_texts_push(notices@, line);
                }
                notices.push(line);
            } else {
            }
        } else {
        }
        i += 1;
    }
    assert(all.take(entries@.len() as int) =~= all);
    notices
}

} // verus!
