//! Framing of a server-sent-events (`text/event-stream`) byte stream into
//! discrete events.
//!
//! The decoder is incremental: the transport hands it the stream's text in
//! chunks of arbitrary size, and it answers with the data payloads of every
//! event completed so far. A line `field: value` contributes `value` to the
//! current event when `field` is `data` (several data lines are joined with
//! a newline); any other field, and comment lines (whose field name is
//! empty), are ignored; a blank line dispatches the current event. Lines
//! end with a line feed, optionally preceded by a carriage return. Only the
//! `data` field is consumed because that is all the providers' streams
//! carry.

use vstd::prelude::*;

use crate::strutil::string_views;

verus! {

/// The position of the first occurrence of `c` in `s`, if any.
pub open spec fn spec_find(s: Seq<char>, c: char) -> Option<int>
    decreases s.len(),
{
    if s.len() == 0 {
        None
    } else if s.first() == c {
        Some(0int)
    } else {
        match spec_find(s.drop_first(), c) {
            Some(i) => Some(i + 1),
            None => None,
        }
    }
}

/// What `spec_find` finds is the first occurrence.
pub proof fn lemma_spec_find_props(s: Seq<char>, c: char)
    ensures
        spec_find(s, c) matches Some(i) ==> 0 <= i < s.len() && s[i] == c && (forall|k: int|
            0 <= k < i ==> s[k] != c),
        spec_find(s, c) is None ==> forall|k: int| 0 <= k < s.len() ==> s[k] != c,
    decreases s.len(),
{
    if s.len() > 0 && s.first() != c {
        lemma_spec_find_props(s.drop_first(), c);
        let t = s.drop_first();
        assert(forall|k: int| 0 <= k < t.len() ==> t[k] == s[k + 1]);
        match spec_find(t, c) {
            Some(i) => {
                assert(s[i + 1] == t[i]);
                assert forall|k: int| 0 <= k < i + 1 implies s[k] != c by {
                    if k > 0 {
                        assert(s[k] == t[k - 1]);
                    }
                }
            },
            None => {
                assert forall|k: int| 0 <= k < s.len() implies s[k] != c by {
                    if k > 0 {
                        assert(s[k] == t[k - 1]);
                    }
                }
            },
        }
    }
}

/// Conversely, the first occurrence is what `spec_find` finds.
pub proof fn lemma_spec_find_complete(s: Seq<char>, c: char, i: int)
    requires
        0 <= i < s.len(),
        s[i] == c,
        forall|k: int| 0 <= k < i ==> s[k] != c,
    ensures
        spec_find(s, c) == Some(i),
    decreases s.len(),
{
    if i == 0 {
        assert(s.first() == s[0]);
    } else {
        assert(s.first() == s[0]);
        assert(s[0] != c);
        let t = s.drop_first();
        assert(t[i - 1] == s[i]);
        assert forall|k: int| 0 <= k < i - 1 implies t[k] != c by {
            assert(t[k] == s[k + 1]);
        }
        lemma_spec_find_complete(t, c, i - 1);
    }
}

/// The position of the first occurrence of `c` in `s`, if any.
pub fn find_char(s: &str, c: char) -> (r: Option<usize>)
    ensures
        r matches Some(i) ==> spec_find(s@, c) == Some(i as int),
        r is None ==> spec_find(s@, c) is None,
{
    let l = s.unicode_len();
    let mut j: usize = 0;
    while j < l
        invariant
            l == s@.len(),
            j <= l,
            forall|k: int| 0 <= k < j ==> s@[k] != c,
        decreases l - j,
    {
        if s.get_char(j) == c {
            proof {
                lemma_spec_find_props(s@, c);
            }
            return Some(j);
        }
        j = j + 1;
    }
    proof {
        lemma_spec_find_props(s@, c);
    }
    None
}

/// A line with one trailing carriage return removed.
pub open spec fn spec_strip_cr(line: Seq<char>) -> Seq<char> {
    if line.len() > 0 && line.last() == '\r' {
        line.drop_last()
    } else {
        line
    }
}

/// A field value with one leading space removed.
pub open spec fn spec_strip_space(v: Seq<char>) -> Seq<char> {
    if v.len() > 0 && v.first() == ' ' {
        v.drop_first()
    } else {
        v
    }
}

/// The decoder's state between lines: the data accumulated for the
/// current event and whether any data field was seen at all.
pub struct SseDecoder {
    pub buf: String,
    pub data: String,
    pub has_data: bool,
}

/// One line's effect on the decoder state: the new data accumulator, the
/// new seen-data flag, and the payload of the event the line dispatched,
/// if it dispatched one.
pub open spec fn spec_line_step(data: Seq<char>, has: bool, line: Seq<char>) -> (
    Seq<char>,
    bool,
    Option<Seq<char>>,
) {
    if line.len() == 0 {
        (
            Seq::<char>::empty(),
            false,
            if has {
                Some(data)
            } else {
                None
            },
        )
    } else {
        let fv = match spec_find(line, ':') {
            Some(i) => (line.subrange(0, i), spec_strip_space(line.subrange(i + 1, line.len() as int))),
            None => (line, Seq::<char>::empty()),
        };
        if fv.0 == "data"@ {
            (
                if has {
                    data + seq!['\n'] + fv.1
                } else {
                    fv.1
                },
                true,
                None,
            )
        } else {
            (data, has, None)
        }
    }
}

/// The effect of consuming every complete line of `buf`: the remaining
/// buffer, the final accumulator state, and the payloads of the events
/// dispatched, in order.
pub open spec fn spec_drain(buf: Seq<char>, data: Seq<char>, has: bool) -> (
    Seq<char>,
    Seq<char>,
    bool,
    Seq<Seq<char>>,
)
    decreases buf.len(),
{
    match spec_find(buf, '\n') {
        None => (buf, data, has, Seq::<Seq<char>>::empty()),
        Some(i) => {
            if 0 <= i < buf.len() {
                let line = spec_strip_cr(buf.subrange(0, i));
                let rest = buf.subrange(i + 1, buf.len() as int);
                let step = spec_line_step(data, has, line);
                let tail = spec_drain(rest, step.0, step.1);
                let evs = match step.2 {
                    Some(e) => seq![e] + tail.3,
                    None => tail.3,
                };
                (tail.0, tail.1, tail.2, evs)
            } else {
                (buf, data, has, Seq::<Seq<char>>::empty())
            }
        },
    }
}

/// Chunk boundaries do not matter: draining `buf` and, from the state and
/// remainder that leaves, draining `extra`, ends in the same state and
/// dispatches the same events, in the same order, as draining the
/// concatenation at once. The transport may therefore split the stream
/// into chunks of arbitrary size, and the decoded sequence keeps strict
/// receipt order.
pub proof fn lemma_drain_chunked(buf: Seq<char>, extra: Seq<char>, data: Seq<char>, has: bool)
    ensures
        ({
            let first = spec_drain(buf, data, has);
            let then = spec_drain(first.0 + extra, first.1, first.2);
            let whole = spec_drain(buf + extra, data, has);
            &&& then.0 == whole.0
            &&& then.1 == whole.1
            &&& then.2 == whole.2
            &&& first.3 + then.3 == whole.3
        }),
    decreases buf.len(),
{
    let first = spec_drain(buf, data, has);
    let whole = spec_drain(buf + extra, data, has);
    match spec_find(buf, '\n') {
        None => {
            assert(first.0 == buf && first.1 == data && first.2 == has && first.3
                == Seq::<Seq<char>>::empty());
            let then = spec_drain(first.0 + extra, first.1, first.2);
            assert(first.3 + then.3 =~= then.3);
        },
        Some(i) => {
            lemma_spec_find_props(buf, '\n');
            assert((buf + extra)[i] == buf[i]);
            assert forall|k: int| 0 <= k < i implies (buf + extra)[k] != '\n' by {
                assert((buf + extra)[k] == buf[k]);
            }
            lemma_spec_find_complete(buf + extra, '\n', i);
            assert((buf + extra).subrange(0, i) =~= buf.subrange(0, i));
            let line = spec_strip_cr(buf.subrange(0, i));
            let rest = buf.subrange(i + 1, buf.len() as int);
            assert((buf + extra).subrange(i + 1, (buf + extra).len() as int) =~= rest + extra);
            let step = spec_line_step(data, has, line);
            lemma_drain_chunked(rest, extra, step.0, step.1);
            let tail = spec_drain(rest, step.0, step.1);
            let then = spec_drain(first.0 + extra, first.1, first.2);
            let tail_whole = spec_drain(rest + extra, step.0, step.1);
            assert(first.0 == tail.0 && first.1 == tail.1 && first.2 == tail.2);
            assert(whole.0 == tail_whole.0 && whole.1 == tail_whole.1 && whole.2 == tail_whole.2);
            match step.2 {
                Some(e) => {
                    assert(first.3 =~= seq![e] + tail.3);
                    assert(whole.3 =~= seq![e] + tail_whole.3);
                    assert(first.3 + then.3 =~= whole.3);
                },
                None => {
                    assert(first.3 =~= tail.3);
                    assert(whole.3 =~= tail_whole.3);
                    assert(first.3 + then.3 =~= whole.3);
                },
            }
        },
    }
}

impl SseDecoder {
    /// What the decoder's fields are modelled by: the unconsumed buffer,
    /// the data accumulated for the current event, and whether a data
    /// field was seen.
    pub open spec fn spec_state(self) -> (Seq<char>, Seq<char>, bool) {
        (self.buf@, self.data@, self.has_data)
    }

    /// A fresh decoder: empty buffer, no pending data.
    pub fn new() -> (r: SseDecoder)
        ensures
            r.spec_state() == (Seq::<char>::empty(), Seq::<char>::empty(), false),
    {
        SseDecoder { buf: String::new(), data: String::new(), has_data: false }
    }

    /// Consumes one complete, newline-stripped line.
    fn line_step(&mut self, line: &str) -> (ev: Option<String>)
        ensures
            final(self).buf == old(self).buf,
            ({
                let step = spec_line_step(old(self).data@, old(self).has_data, line@);
                &&& final(self).data@ == step.0
                &&& final(self).has_data == step.1
                &&& (match ev {
                    Some(e) => step.2 matches Some(s) && e@ == s,
                    None => step.2 is None,
                })
            }),
    {
        let l = line.unicode_len();
        if l == 0 {
            if self.has_data {
                let ev = self.data.clone();
                self.data = String::new();
                self.has_data = false;
                Some(ev)
            } else {
                self.data = String::new();
                None
            }
        } else {
            let (field, value) = match find_char(line, ':') {
                Some(i) => {
                    proof {
                        lemma_spec_find_props(line@, ':');
                    }
                    let f = line.substring_char(0, i);
                    let v = line.substring_char(i + 1, l);
                    let vl = v.unicode_len();
                    let v = if vl > 0 && v.get_char(0) == ' ' {
                        v.substring_char(1, vl)
                    } else {
                        v
                    };
                    (f, v)
                },
                None => (line, ""),
            };
            proof {
                reveal_strlit("");
            }
            if crate::strutil::str_eq(field, "data") {
                if self.has_data {
                    self.data.append("\n");
                    self.data.append(value);
                    proof {
                        reveal_strlit("\n");
                        assert("\n"@ =~= seq!['\n']);
                        let step = spec_line_step(old(self).data@, old(self).has_data, line@);
                        assert(self.data@ =~= step.0);
                    }
                } else {
                    self.data = value.to_owned();
                    self.has_data = true;
                }
                None
            } else {
                None
            }
        }
    }

    /// Feeds one chunk of the stream's text and returns the data payloads
    /// of every event it completed, in receipt order. The decoder keeps
    /// any trailing partial line and the current event's pending data for
    /// the next chunk.
    pub fn push_chunk(&mut self, chunk: &str) -> (events: Vec<String>)
        ensures
            ({
                let target = spec_drain(
                    old(self).buf@ + chunk@,
                    old(self).data@,
                    old(self).has_data,
                );
                &&& final(self).buf@ == target.0
                &&& final(self).data@ == target.1
                &&& final(self).has_data == target.2
                &&& string_views(events@) == target.3
            }),
    {
        self.buf.append(chunk);
        let ghost target = spec_drain(self.buf@, self.data@, self.has_data);
        let mut events: Vec<String> = Vec::new();
        loop
            invariant
                target == spec_drain(old(self).buf@ + chunk@, old(self).data@, old(self).has_data),
                ({
                    let cur = spec_drain(self.buf@, self.data@, self.has_data);
                    &&& target.0 == cur.0
                    &&& target.1 == cur.1
                    &&& target.2 == cur.2
                    &&& target.3 == string_views(events@) + cur.3
                }),
            decreases self.buf@.len(),
        {
            let pos = find_char(self.buf.as_str(), '\n');
            match pos {
                None => {
                    proof {
                        let cur = spec_drain(self.buf@, self.data@, self.has_data);
                        assert(cur.0 == self.buf@ && cur.1 == self.data@ && cur.2
                            == self.has_data);
                        assert(cur.3 =~= Seq::<Seq<char>>::empty());
                        assert(target.3 =~= string_views(events@));
                        assert(self.buf@ == target.0);
                        assert(self.data@ == target.1);
                        assert(self.has_data == target.2);
                    }
                    return events;
                },
                Some(i) => {
                    proof {
                        lemma_spec_find_props(self.buf@, '\n');
                    }
                    let ghost pre = (self.buf@, self.data@, self.has_data);
                    let l = self.buf.as_str().unicode_len();
                    let raw_line = self.buf.as_str().substring_char(0, i).to_owned();
                    let rest = self.buf.as_str().substring_char(i + 1, l).to_owned();
                    let rl = raw_line.as_str().unicode_len();
                    let line = if rl > 0 && raw_line.as_str().get_char(rl - 1) == '\r' {
                        raw_line.as_str().substring_char(0, rl - 1).to_owned()
                    } else {
                        raw_line
                    };
                    proof {
                        assert(line@ == spec_strip_cr(pre.0.subrange(0, i as int)));
                    }
                    self.buf = rest;
                    let ev = self.line_step(line.as_str());
                    match ev {
                        Some(e) => {
                            let ghost evs_pre = events@;
                            proof {
                                let cur = spec_drain(self.buf@, self.data@, self.has_data);
                                let whole = spec_drain(pre.0, pre.1, pre.2);
                                assert(whole.0 == cur.0 && whole.1 == cur.1 && whole.2 == cur.2);
                                assert(whole.3 =~= seq![e@] + cur.3);
                            }
                            events.push(e);
                            proof {
                                let cur = spec_drain(self.buf@, self.data@, self.has_data);
                                assert(string_views(events@) =~= string_views(evs_pre).push(
                                    events@.last()@,
                                ));
                                assert(target.3 =~= string_views(events@) + cur.3);
                            }
                        },
                        None => {
                            proof {
                                let cur = spec_drain(self.buf@, self.data@, self.has_data);
                                let whole = spec_drain(pre.0, pre.1, pre.2);
                                assert(whole.0 == cur.0 && whole.1 == cur.1 && whole.2 == cur.2);
                                assert(whole.3 =~= cur.3);
                            }
                        },
                    }
                },
            }
        }
    }
}

} // verus!
