use vstd::prelude::*;

use vstd::std_specs::iter::IteratorSpec;

use crate::identity::ViolationKind;

verus! {

broadcast use vstd::string::group_string_axioms;

/// Tuning of the link-spam detector for one room.
#[derive(Clone, Copy, Debug, PartialEq, Eq, Structural)]
pub struct LinkSpamConfig {
    /// How long after the start of the group links are watched for.
    pub watch_timeout_secs: u64,
}

/// `pat` occurs in `text` starting at `i`.
pub open spec fn occurs_at(text: Seq<char>, pat: Seq<char>, i: int) -> bool {
    0 <= i && i + pat.len() <= text.len() && text.subrange(i, i + pat.len()) == pat
}

/// `pat` occurs somewhere in `text`.
pub open spec fn occurs_in(text: Seq<char>, pat: Seq<char>) -> bool {
    exists|i: int| occurs_at(text, pat, i)
}

pub open spec fn http_scheme() -> Seq<char> {
    seq!['h', 't', 't', 'p', ':', '/', '/']
}

pub open spec fn https_scheme() -> Seq<char> {
    seq!['h', 't', 't', 'p', 's', ':', '/', '/']
}

/// A message body that holds a link.
pub open spec fn has_link(body: Seq<char>) -> bool {
    occurs_in(body, http_scheme()) || occurs_in(body, https_scheme())
}

/// The characters of `s`.
fn chars_of(s: &str) -> (r: Vec<char>)
    ensures
        r@ == s@,
{
    let mut it = s.chars();
    let mut out: Vec<char> = Vec::new();
    loop
        invariant
            out.len() <= s@.len(),
            out@ == s@.subrange(0, out.len() as int),
            it.remaining() == s@.subrange(out.len() as int, s@.len() as int),
        ensures
            out@ == s@,
        decreases s@.len() - out.len(),
    {
        match it.next() {
            Some(c) => {
                proof {
                    assert(s@.subrange(0, out.len() + 1) == s@.subrange(0, out.len() as int).push(c));
                }
                out.push(c);
            },
            None => {
                assert(s@.subrange(out.len() as int, s@.len() as int).len() == 0);
                assert(out@ =~= s@);
                break;
            },
        }
    }
    out
}

fn occurs_at_exec(text: &Vec<char>, pat: &Vec<char>, i: usize) -> (r: bool)
    ensures
        r == occurs_at(text@, pat@, i as int),
{
    if i > text.len() || pat.len() > text.len() - i {
        return false;
    }
    let mut j: usize = 0;
    while j < pat.len()
        invariant
            i + pat.len() <= text.len(),
            j <= pat.len(),
            forall|k: int| 0 <= k < j ==> text@[i + k] == pat@[k],
        decreases pat.len() - j,
    {
        if text[i + j] != pat[j] {
            assert(text@.subrange(i as int, i + pat.len())[j as int] != pat@[j as int]);
            return false;
        }
        j = j + 1;
    }
    assert(text@.subrange(i as int, i + pat.len()) == pat@);
    true
}

fn occurs_in_exec(text: &Vec<char>, pat: &Vec<char>) -> (r: bool)
    ensures
        r == occurs_in(text@, pat@),
{
    let mut i: usize = 0;
    while i < text.len()
        invariant
            i <= text.len(),
            forall|k: int| 0 <= k < i ==> !occurs_at(text@, pat@, k),
        decreases text.len() - i,
    {
        if occurs_at_exec(text, pat, i) {
            return true;
        }
        i = i + 1;
    }
    if occurs_at_exec(text, pat, i) {
        return true;
    }
    assert forall|k: int| !occurs_at(text@, pat@, k) by {
        if k > text.len() {
            assert(!occurs_at(text@, pat@, k));
        }
    }
    false
}

/// True when the body holds an `http://` or `https://` link.
pub fn contains_link(body: &str) -> (r: bool)
    ensures
        r == has_link(body@),
{
    let text = chars_of(body);
    let http = vec!['h', 't', 't', 'p', ':', '/', '/'];
    let https = vec!['h', 't', 't', 'p', 's', ':', '/', '/'];
    assert(http@ == http_scheme());
    assert(https@ == https_scheme());
    occurs_in_exec(&text, &http) || occurs_in_exec(&text, &https)
}

/// Watches for links in the messages of a user for a while after the start of
/// its group, then ends for good.
#[derive(Clone, Copy, Debug, PartialEq, Eq, Structural)]
pub struct LinkSpamDetector {
    pub watching: bool,
}

impl LinkSpamDetector {
    /// A detector from the merged settings of its room, with the seconds
    /// until its watch ends, or `None` when it is disabled there.
    pub fn start(config: Option<LinkSpamConfig>) -> (r: Option<(LinkSpamDetector, u64)>)
        ensures
            config is None <==> r is None,
            config matches Some(c) ==> r == Some(
                (LinkSpamDetector { watching: true }, c.watch_timeout_secs),
            ),
    {
        match config {
            None => None,
            Some(c) => Some((LinkSpamDetector { watching: true }, c.watch_timeout_secs)),
        }
    }

    /// A message of the user: spam when it holds a link during the watch.
    pub fn on_message(&self, body: &str) -> (v: Option<ViolationKind>)
        ensures
            v == (if self.watching && has_link(body@) {
                Some(ViolationKind::Spam)
            } else {
                None
            }),
    {
        if self.watching && contains_link(body) {
            Some(ViolationKind::Spam)
        } else {
            None
        }
    }

    /// The watch has run out: the detector ends and is never armed again.
    pub fn on_timeout(&mut self)
        ensures
            !final(self).watching,
    {
        self.watching = false;
    }
}

} // verus!
