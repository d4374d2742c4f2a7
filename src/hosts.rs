//! Hosts-file entries: the text is split into lines, each line into
//! whitespace-separated tokens; a line with an address and at least one
//! hostname makes an entry, anything else is skipped.
use vstd::prelude::*;

use crate::format::{push_char, strings_view};

verus! {

/// One address and the hostnames that share it, in file order.
pub struct HostEntry {
    pub ip: String,
    pub hostnames: Vec<String>,
}

/// The parsed hosts file, or the reason it could not be read.
pub struct HostsInfo {
    pub entries: Vec<HostEntry>,
    pub error: Option<String>,
}

impl View for HostEntry {
    type V = (Seq<char>, Seq<Seq<char>>);

    open spec fn view(&self) -> (Seq<char>, Seq<Seq<char>>) {
        (self.ip@, strings_view(self.hostnames@))
    }
}

/// The views of a sequence of entries.
pub open spec fn entries_view(v: Seq<HostEntry>) -> Seq<(Seq<char>, Seq<Seq<char>>)> {
    v.map_values(|e: HostEntry| e@)
}

/// Unicode `White_Space`, the characters that `str::split_whitespace` splits on.
pub open spec fn is_space(c: char) -> bool {
    ||| '\u{9}' <= c <= '\u{d}'
    ||| c == ' '
    ||| c == '\u{85}'
    ||| c == '\u{a0}'
    ||| c == '\u{1680}'
    ||| '\u{2000}' <= c <= '\u{200a}'
    ||| c == '\u{2028}'
    ||| c == '\u{2029}'
    ||| c == '\u{202f}'
    ||| c == '\u{205f}'
    ||| c == '\u{3000}'
}

/// Splitting state after reading `s`: the finished tokens and the one being read.
pub open spec fn token_state(s: Seq<char>) -> (Seq<Seq<char>>, Seq<char>)
    decreases s.len(),
{
    if s.len() == 0 {
        (Seq::empty(), Seq::empty())
    } else {
        let (done, cur) = token_state(s.drop_last());
        let c = s.last();
        if !is_space(c) {
            (done, cur.push(c))
        } else if cur.len() > 0 {
            (done.push(cur), Seq::empty())
        } else {
            (done, cur)
        }
    }
}

/// The maximal runs of non-whitespace characters of `s`, in order.
pub open spec fn tokens(s: Seq<char>) -> Seq<Seq<char>> {
    let (done, cur) = token_state(s);
    if cur.len() > 0 {
        done.push(cur)
    } else {
        done
    }
}

/// Splitting state after reading `s`: the finished lines and the one being read.
pub open spec fn line_state(s: Seq<char>) -> (Seq<Seq<char>>, Seq<char>)
    decreases s.len(),
{
    if s.len() == 0 {
        (Seq::empty(), Seq::empty())
    } else {
        let (done, cur) = line_state(s.drop_last());
        let c = s.last();
        if c == '\n' {
            (done.push(cur), Seq::empty())
        } else {
            (done, cur.push(c))
        }
    }
}

/// The lines of `s`, split at each line feed.
pub open spec fn lines(s: Seq<char>) -> Seq<Seq<char>> {
    let (done, cur) = line_state(s);
    done.push(cur)
}

/// The part of a line before its first `#`.
pub open spec fn before_hash(line: Seq<char>) -> Seq<char>
    decreases line.len(),
{
    if line.len() == 0 {
        line
    } else if line[0] == '#' {
        Seq::empty()
    } else {
        seq![line[0]] + before_hash(line.drop_first())
    }
}

/// The tokens of a line, with everything from the first `#` on dropped when
/// comments are filtered.
pub open spec fn line_tokens(line: Seq<char>, filter_comments: bool) -> Seq<Seq<char>> {
    if filter_comments {
        tokens(before_hash(line))
    } else {
        tokens(line)
    }
}

/// The entry a line gives, if it has an address and at least one hostname.
pub open spec fn line_entry(line: Seq<char>, filter_comments: bool) -> Option<
    (Seq<char>, Seq<Seq<char>>),
> {
    let t = line_tokens(line, filter_comments);
    if t.len() >= 2 {
        Some((t[0], t.drop_first()))
    } else {
        None
    }
}

/// The entries of the given lines, in order.
pub open spec fn lines_entries(ls: Seq<Seq<char>>, filter_comments: bool) -> Seq<
    (Seq<char>, Seq<Seq<char>>),
>
    decreases ls.len(),
{
    if ls.len() == 0 {
        Seq::empty()
    } else {
        let prev = lines_entries(ls.drop_last(), filter_comments);
        match line_entry(ls.last(), filter_comments) {
            Some(e) => prev.push(e),
            None => prev,
        }
    }
}

/// The entries of a hosts file's text.
pub open spec fn hosts_entries(content: Seq<char>, filter_comments: bool) -> Seq<
    (Seq<char>, Seq<Seq<char>>),
> {
    lines_entries(lines(content), filter_comments)
}

fn is_space_char(c: char) -> (r: bool)
    ensures
        r == is_space(c),
{
    ('\u{9}' <= c && c <= '\u{d}') || c == ' ' || c == '\u{85}' || c == '\u{a0}' || c == '\u{1680}'
        || ('\u{2000}' <= c && c <= '\u{200a}') || c == '\u{2028}' || c == '\u{2029}' || c
        == '\u{202f}' || c == '\u{205f}' || c == '\u{3000}'
}

proof fn lemma_before_hash(line: Seq<char>, end: int)
    requires
        0 <= end <= line.len(),
        forall|k: int| 0 <= k < end ==> line[k] != '#',
        end == line.len() || line[end] == '#',
    ensures
        before_hash(line) == line.take(end),
    decreases line.len(),
{
    if line.len() > 0 && end > 0 {
        lemma_before_hash(line.drop_first(), end - 1);
        assert(line.take(end) =~= seq![line[0]] + line.drop_first().take(end - 1));
    } else {
        assert(line.take(end) =~= Seq::<char>::empty());
    }
}

/// The tokens of one line, comments dropped when `filter_comments` is set.
fn split_line(line: &Vec<char>, filter_comments: bool) -> (r: Vec<String>)
    ensures
        strings_view(r@) == line_tokens(line@, filter_comments),
{
    let mut end: usize = 0;
    if filter_comments {
        while end < line.len() && line[end] != '#'
            invariant
                end <= line.len(),
                forall|k: int| 0 <= k < end ==> line@[k] != '#',
            decreases line.len() - end,
        {
            end = end + 1;
        }
        proof {
            lemma_before_hash(line@, end as int);
        }
    } else {
        end = line.len();
    }
    let ghost text = line@.take(end as int);
    assert(line_tokens(line@, filter_comments) == tokens(text)) by {
        if !filter_comments {
            assert(text =~= line@);
        }
    }
    let mut done: Vec<String> = Vec::new();
    let mut cur = String::new();
    let mut i: usize = 0;
    while i < end
        invariant
            end <= line.len(),
            i <= end,
            text == line@.take(end as int),
            (strings_view(done@), cur@) == token_state(text.take(i as int)),
        decreases end - i,
    {
        let c = line[i];
        assert(text.take(i + 1).drop_last() =~= text.take(i as int));
        assert(text.take(i + 1).last() == c);
        if !is_space_char(c) {
            push_char(&mut cur, c);
        } else if !cur.as_str().is_empty() {
            let ghost old_done = done@;
            done.push(cur);
            assert(strings_view(done@) =~= strings_view(old_done).push(cur@));
            cur = String::new();
            assert(cur@ =~= Seq::<char>::empty());
        }
        i = i + 1;
    }
    assert(text.take(end as int) =~= text);
    if !cur.as_str().is_empty() {
        let ghost old_done = done@;
        done.push(cur);
        assert(strings_view(done@) =~= strings_view(old_done).push(cur@));
    }
    done
}

/// The entry of one line, if it has an address and at least one hostname.
fn parse_line(line: &Vec<char>, filter_comments: bool) -> (r: Option<HostEntry>)
    ensures
        match r {
            Some(e) => line_entry(line@, filter_comments) == Some(e@),
            None => line_entry(line@, filter_comments) is None,
        },
{
    let mut parts = split_line(line, filter_comments);
    if parts.len() >= 2 {
        let ghost all = strings_view(parts@);
        let ip = parts.remove(0);
        assert(strings_view(parts@) =~= all.drop_first());
        Some(HostEntry { ip, hostnames: parts })
    } else {
        None
    }
}

/// Parses the text of a hosts file into its entries. Each line is split into
/// whitespace-separated tokens; when `filter_comments` is set, everything from
/// the first `#` of a line on is ignored. A line with fewer than two tokens is
/// skipped.
pub fn parse_hosts(content: &str, filter_comments: bool) -> (r: Vec<HostEntry>)
    ensures
        entries_view(r@) == hosts_entries(content@, filter_comments),
{
    let mut entries: Vec<HostEntry> = Vec::new();
    let mut line: Vec<char> = Vec::new();
    let ghost seen: Seq<char> = Seq::empty();
    for c in it: content.chars()
        invariant
            seen == it.seq().take(it.index() as int),
            entries_view(entries@) == lines_entries(line_state(seen).0, filter_comments),
            line@ == line_state(seen).1,
    {
        let ghost prev = seen;
        if c == '\n' {
            match parse_line(&line, filter_comments) {
                Some(e) => {
                    let ghost old_entries = entries@;
                    entries.push(e);
                    assert(entries_view(entries@) =~= entries_view(old_entries).push(e@));
                },
                None => {},
            }
            line = Vec::new();
        } else {
            line.push(c);
        }
        proof {
            seen = prev.push(c);
            assert(seen.drop_last() =~= prev);
            if c == '\n' {
                assert(line_state(seen).0.drop_last() =~= line_state(prev).0);
            }
        }
    }
    match parse_line(&line, filter_comments) {
        Some(e) => {
            let ghost old_entries = entries@;
            entries.push(e);
            assert(entries_view(entries@) =~= entries_view(old_entries).push(e@));
        },
        None => {},
    }
    assert(seen =~= content@);
    assert(lines(seen).drop_last() =~= line_state(seen).0);
    entries
}


/// The text that reports an unreadable hosts file with the given cause.
pub open spec fn read_error_text(cause: Seq<char>) -> Seq<char> {
    "Cannot read hosts file: "@ + cause + " (administrator rights may be required)"@
}

impl HostsInfo {
    /// Builds the hosts report from the outcome of reading the hosts file:
    /// its text, or the cause of the failure. A failure gives no entries and
    /// an error message; it is not fatal.
    pub fn collect(read: Result<String, String>, filter_comments: bool) -> (r: HostsInfo)
        ensures
            match read {
                Ok(text) => {
                    &&& entries_view(r.entries@) == hosts_entries(text@, filter_comments)
                    &&& r.error is None
                },
                Err(cause) => {
                    &&& r.entries@.len() == 0
                    &&& r.error matches Some(m) && m@ == read_error_text(cause@)
                },
            },
    {
        match read {
            Ok(text) => HostsInfo { entries: parse_hosts(text.as_str(), filter_comments), error: None },
            Err(cause) => {
                let m = String::from_str("Cannot read hosts file: ");
                let m = m.concat(cause.as_str());
                let m = m.concat(" (administrator rights may be required)");
                HostsInfo { entries: Vec::new(), error: Some(m) }
            },
        }
    }
}

} // verus!
