//! The headers of a request, as far as the service reads them.

use vstd::prelude::*;
use vstd::string::*;
use crate::text::{eq_ignore_ascii_case, same_text_ignore_ascii_case};

verus! {

/// One header line: its name and its value.
#[derive(Debug)]
pub struct Header {
    pub name: String,
    pub value: String,
}

/// The value that a list of header lines gives for a name: that of the first
/// line with the name. Names are compared without regard to the case of
/// ASCII letters.
pub open spec fn header_value(lines: Seq<(Seq<char>, Seq<char>)>, name: Seq<char>) -> Option<
    Seq<char>,
>
    decreases lines.len(),
{
    if lines.len() == 0 {
        None
    } else if eq_ignore_ascii_case(lines[0].0, name) {
        Some(lines[0].1)
    } else {
        header_value(lines.drop_first(), name)
    }
}

/// The lines that do not have the given name, in their order.
pub open spec fn without_header(lines: Seq<(Seq<char>, Seq<char>)>, name: Seq<char>) -> Seq<
    (Seq<char>, Seq<char>),
>
    decreases lines.len(),
{
    if lines.len() == 0 {
        Seq::empty()
    } else {
        let rest = without_header(lines.drop_last(), name);
        if eq_ignore_ascii_case(lines.last().0, name) {
            rest
        } else {
            rest.push(lines.last())
        }
    }
}

/// The header lines of a request, in the order in which they were added.
#[derive(Debug)]
pub struct HeaderMap {
    lines: Vec<Header>,
}

impl View for HeaderMap {
    type V = Seq<(Seq<char>, Seq<char>)>;

    closed spec fn view(&self) -> Seq<(Seq<char>, Seq<char>)> {
        lines_view(self.lines@)
    }
}

spec fn lines_view(lines: Seq<Header>) -> Seq<(Seq<char>, Seq<char>)> {
    lines.map_values(|line: Header| (line.name@, line.value@))
}

impl HeaderMap {
    /// No header lines.
    pub fn new() -> (headers: Self)
        ensures
            headers@ == Seq::<(Seq<char>, Seq<char>)>::empty(),
    {
        let headers = HeaderMap { lines: Vec::new() };
        assert(headers@ =~= Seq::<(Seq<char>, Seq<char>)>::empty());
        headers
    }

    /// Adds a line after those that are there.
    pub fn add_raw(&mut self, name: &str, value: &str)
        ensures
            final(self)@ == old(self)@.push((name@, value@)),
    {
        self.lines.push(Header { name: String::from_str(name), value: String::from_str(value) });
        assert(self@ =~= old(self)@.push((name@, value@)));
    }

    /// Takes out every line with the given name.
    pub fn remove(&mut self, name: &str)
        ensures
            final(self)@ == without_header(old(self)@, name@),
    {
        let ghost all = self.lines@;
        let ghost mut seen: int = 0;
        let mut i: usize = 0;
        assert(lines_view(all.subrange(0, 0)) =~= Seq::empty());
        assert(all.subrange(0, all.len() as int) =~= all);
        while i < self.lines.len()
            invariant
                all == old(self).lines@,
                0 <= seen <= all.len(),
                i <= self.lines@.len(),
                self.lines@.len() - i == all.len() - seen,
                lines_view(self.lines@.subrange(0, i as int)) == without_header(
                    lines_view(all.subrange(0, seen)),
                    name@,
                ),
                self.lines@.subrange(i as int, self.lines@.len() as int) == all.subrange(
                    seen,
                    all.len() as int,
                ),
            decreases self.lines@.len() - i,
        {
            let ghost before = self.lines@;
            proof {
                assert(before.subrange(i as int, before.len() as int)[0] == before[i as int]);
                assert(before[i as int] == all[seen]);
                let next = lines_view(all.subrange(0, seen + 1));
                assert(next.drop_last() =~= lines_view(all.subrange(0, seen)));
                assert(next.last() == (all[seen].name@, all[seen].value@));
            }
            if same_text_ignore_ascii_case(self.lines[i].name.as_str(), name) {
                self.lines.remove(i);
                proof {
                    assert(self.lines@.subrange(0, i as int) =~= before.subrange(0, i as int));
                    let tail = before.subrange(i as int, before.len() as int);
                    assert(self.lines@.subrange(i as int, self.lines@.len() as int)
                        =~= tail.drop_first());
                    assert(all.subrange(seen + 1, all.len() as int) =~= all.subrange(
                        seen,
                        all.len() as int,
                    ).drop_first());
                    seen = seen + 1;
                }
            } else {
                proof {
                    assert(lines_view(before.subrange(0, i + 1)) =~= lines_view(
                        before.subrange(0, i as int),
                    ).push((all[seen].name@, all[seen].value@)));
                    let tail = before.subrange(i as int, before.len() as int);
                    assert(before.subrange(i + 1, before.len() as int) =~= tail.drop_first());
                    assert(all.subrange(seen + 1, all.len() as int) =~= all.subrange(
                        seen,
                        all.len() as int,
                    ).drop_first());
                    seen = seen + 1;
                }
                i += 1;
            }
        }
        proof {
            assert(seen == all.len());
            assert(all.subrange(0, seen) =~= all);
            assert(self.lines@.subrange(0, i as int) =~= self.lines@);
        }
    }

    /// Puts one line in place of all those with the given name, and tells
    /// whether there was any.
    pub fn replace_raw(&mut self, name: &str, value: &str) -> (replaced: bool)
        ensures
            final(self)@ == without_header(old(self)@, name@).push((name@, value@)),
            replaced == header_value(old(self)@, name@).is_some(),
    {
        let replaced = self.get_one(name).is_some();
        self.remove(name);
        self.add_raw(name, value);
        replaced
    }

    /// The value of the first line with the given name.
    pub fn get_one(&self, name: &str) -> (value: Option<&str>)
        ensures
            value.deep_view() == header_value(self@, name@),
    {
        let mut i: usize = 0;
        assert(self@.subrange(0, self@.len() as int) =~= self@);
        while i < self.lines.len()
            invariant
                i <= self.lines@.len(),
                header_value(self@, name@) == header_value(
                    self@.subrange(i as int, self@.len() as int),
                    name@,
                ),
            decreases self.lines@.len() - i,
        {
            proof {
                let rest = self@.subrange(i as int, self@.len() as int);
                assert(rest[0] == (self.lines@[i as int].name@, self.lines@[i as int].value@));
                assert(rest.drop_first() =~= self@.subrange(i + 1, self@.len() as int));
            }
            if same_text_ignore_ascii_case(self.lines[i].name.as_str(), name) {
                return Some(self.lines[i].value.as_str());
            }
            i += 1;
        }
        None
    }
}

} // verus!
