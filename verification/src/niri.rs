//! Display topology: typed output records as reported by the compositor
//! control surface, and the parsing and classification built on a snapshot of
//! one query.

use vstd::prelude::*;
use vstd::string::StrSliceExecFns;

use crate::contains_hdmi;
use crate::text::contains_hdmi_str;
use crate::text::is_prefix;
use crate::text::lemma_char_back_some;
use crate::text::line_views;
use crate::text::rfind_char;
use crate::text::rfind_char_spec;
use crate::text::split_lines;
use crate::text::split_lines_spec;
use crate::text::starts_with_str;
use crate::text::string_views;
use crate::text::trim_spec;
use crate::text::trim_str;

verus! {

/// The logical placement of one output.
#[derive(Clone, Copy, Debug, PartialEq, Eq, Structural)]
pub struct NiriLogical {
    pub x: i32,
    pub y: i32,
    pub width: i32,
    pub height: i32,
}

/// One compositor-known output: its stable name and logical placement.
pub struct NiriOutput {
    pub name: String,
    pub logical: NiriLogical,
}

/// The mathematical value of a [`NiriOutput`].
pub struct NiriOutputView {
    pub name: Seq<char>,
    pub logical: NiriLogical,
}

impl View for NiriOutput {
    type V = NiriOutputView;

    open spec fn view(&self) -> NiriOutputView {
        NiriOutputView { name: self.name@, logical: self.logical }
    }
}

impl Clone for NiriOutput {
    fn clone(&self) -> (r: Self)
        ensures
            r@ == self@,
    {
        NiriOutput { name: self.name.clone(), logical: self.logical }
    }
}

/// The views of a sequence of outputs.
pub open spec fn output_views(v: Seq<NiriOutput>) -> Seq<NiriOutputView> {
    Seq::new(v.len(), |i: int| v[i]@)
}

// ---------------------------------------------------------------------------
// Plain-text output listing
// ---------------------------------------------------------------------------

/// The trimmed, non-empty lines of a run of lines.
pub open spec fn nonempty_trimmed(lines: Seq<Seq<char>>) -> Seq<Seq<char>>
    decreases lines.len(),
{
    if lines.len() == 0 {
        Seq::empty()
    } else {
        let t = trim_spec(lines[0]);
        if t.len() > 0 {
            seq![t] + nonempty_trimmed(lines.drop_first())
        } else {
            nonempty_trimmed(lines.drop_first())
        }
    }
}

/// The display lines of one plain-text output query: each line trimmed, empty
/// lines dropped.
pub open spec fn output_lines_spec(s: Seq<char>) -> Seq<Seq<char>> {
    nonempty_trimmed(split_lines_spec(s))
}

/// Parse the plain-text output listing into its trimmed, non-empty lines.
pub fn parse_output_lines(text: &str) -> (r: Vec<String>)
    ensures
        string_views(r@) == output_lines_spec(text@),
{
    let lines = split_lines(text);
    let ghost lv = line_views(lines@);
    let mut out: Vec<String> = Vec::new();
    let mut i: usize = 0;
    proof {
        assert(lv.skip(0) =~= lv);
        assert(string_views(out@) + nonempty_trimmed(lv) =~= nonempty_trimmed(lv));
    }
    while i < lines.len()
        invariant
            0 <= i <= lines@.len(),
            lv == line_views(lines@),
            output_lines_spec(text@) =~= string_views(out@) + nonempty_trimmed(lv.skip(i as int)),
        decreases lines@.len() - i,
    {
        let ghost rest = lv.skip(i as int);
        proof {
            assert(rest.len() > 0);
            assert(rest[0] == lv[i as int]);
            assert(rest.drop_first() =~= lv.skip(i + 1));
        }
        let t = trim_str(lines[i]);
        if t.unicode_len() > 0 {
            let ghost old_out = out@;
            out.push(t.to_owned());
            proof {
                assert(string_views(out@) =~= string_views(old_out).push(t@));
                assert(string_views(old_out).push(t@) + nonempty_trimmed(lv.skip(i + 1))
                    =~= string_views(old_out) + (seq![t@] + nonempty_trimmed(lv.skip(i + 1))));
            }
        }
        i += 1;
    }
    proof {
        assert(nonempty_trimmed(lv.skip(i as int)) =~= Seq::<Seq<char>>::empty());
        assert(string_views(out@) + Seq::<Seq<char>>::empty() =~= string_views(out@));
    }
    out
}

// ---------------------------------------------------------------------------
// The display topology snapshot
// ---------------------------------------------------------------------------

/// The lines whose text contains "hdmi" ignoring case.
pub open spec fn hdmi_lines_spec(ls: Seq<Seq<char>>) -> Seq<Seq<char>>
    decreases ls.len(),
{
    if ls.len() == 0 {
        Seq::empty()
    } else {
        if contains_hdmi(ls[0]) {
            seq![ls[0]] + hdmi_lines_spec(ls.drop_first())
        } else {
            hdmi_lines_spec(ls.drop_first())
        }
    }
}

/// The connected output name carried by one display line, if any: the line
/// must begin with the `Output` marker, and the name is the token enclosed in
/// the last parenthesis pair; lines without both an opening and a matching
/// later closing parenthesis are skipped, not errored.
pub open spec fn output_name_of_line(l: Seq<char>) -> Option<Seq<char>> {
    if !is_prefix(l, "Output "@) {
        None
    } else {
        match rfind_char_spec(l, '(') {
            None => None,
            Some(open) => match rfind_char_spec(l, ')') {
                None => None,
                Some(close) => if close > open + 1 {
                    Some(l.subrange(open + 1, close))
                } else {
                    None
                },
            },
        }
    }
}

/// The connected output names found in a run of display lines.
pub open spec fn connected_names_spec(ls: Seq<Seq<char>>) -> Seq<Seq<char>>
    decreases ls.len(),
{
    if ls.len() == 0 {
        Seq::empty()
    } else {
        match output_name_of_line(ls[0]) {
            Some(n) => seq![n] + connected_names_spec(ls.drop_first()),
            None => connected_names_spec(ls.drop_first()),
        }
    }
}

/// The names of the outputs whose HDMI classification equals `want_hdmi`.
pub open spec fn output_names_by_class(ov: Seq<NiriOutputView>, want_hdmi: bool) -> Seq<Seq<char>>
    decreases ov.len(),
{
    if ov.len() == 0 {
        Seq::empty()
    } else {
        if contains_hdmi(ov[0].name) == want_hdmi {
            seq![ov[0].name] + output_names_by_class(ov.drop_first(), want_hdmi)
        } else {
            output_names_by_class(ov.drop_first(), want_hdmi)
        }
    }
}

/// A snapshot of one display topology query: the plain-text listing's lines
/// and the structured output records. Snapshots are re-fetched on every
/// operation, never cached across mutations.
pub struct NiriAdapter {
    pub lines: Vec<String>,
    pub outputs: Vec<NiriOutput>,
}

impl NiriAdapter {
    /// Build a snapshot from the plain-text listing and the structured
    /// records of one query.
    pub fn from_queries(text: &str, outputs: Vec<NiriOutput>) -> (a: NiriAdapter)
        ensures
            string_views(a.lines@) == output_lines_spec(text@),
            a.outputs == outputs,
    {
        NiriAdapter { lines: parse_output_lines(text), outputs }
    }

    /// The trimmed, non-empty display lines of the snapshot.
    pub fn list_outputs(&self) -> (r: Vec<String>)
        ensures
            string_views(r@) == string_views(self.lines@),
    {
        let mut out: Vec<String> = Vec::new();
        let mut i: usize = 0;
        while i < self.lines.len()
            invariant
                0 <= i <= self.lines@.len(),
                out@.len() == i,
                forall|k: int| 0 <= k < i ==> out@[k]@ == self.lines@[k]@,
            decreases self.lines@.len() - i,
        {
            out.push(self.lines[i].clone());
            i += 1;
        }
        proof {
            assert(string_views(out@) =~= string_views(self.lines@));
        }
        out
    }

    /// The display lines that mention an HDMI connector.
    pub fn list_hdmi_outputs(&self) -> (r: Vec<String>)
        ensures
            string_views(r@) == hdmi_lines_spec(string_views(self.lines@)),
    {
        let ghost lv = string_views(self.lines@);
        let mut out: Vec<String> = Vec::new();
        let mut i: usize = 0;
        proof {
            assert(lv.skip(0) =~= lv);
            assert(string_views(out@) + hdmi_lines_spec(lv) =~= hdmi_lines_spec(lv));
        }
        while i < self.lines.len()
            invariant
                0 <= i <= self.lines@.len(),
                lv == string_views(self.lines@),
                hdmi_lines_spec(lv) =~= string_views(out@) + hdmi_lines_spec(lv.skip(i as int)),
            decreases self.lines@.len() - i,
        {
            let ghost rest = lv.skip(i as int);
            proof {
                assert(rest.len() > 0);
                assert(rest[0] == lv[i as int]);
                assert(rest.drop_first() =~= lv.skip(i + 1));
            }
            if contains_hdmi_str(self.lines[i].as_str()) {
                let ghost old_out = out@;
                out.push(self.lines[i].clone());
                proof {
                    assert(string_views(out@) =~= string_views(old_out).push(lv[i as int]));
                    assert(string_views(old_out).push(lv[i as int]) + hdmi_lines_spec(
                        lv.skip(i + 1),
                    ) =~= string_views(old_out) + (seq![lv[i as int]] + hdmi_lines_spec(
                        lv.skip(i + 1),
                    )));
                }
            }
            i += 1;
        }
        proof {
            assert(hdmi_lines_spec(lv.skip(i as int)) =~= Seq::<Seq<char>>::empty());
            assert(string_views(out@) + Seq::<Seq<char>>::empty() =~= string_views(out@));
        }
        out
    }

    /// The connected output names parsed from the snapshot's display lines.
    pub fn connected_output_names(&self) -> (r: Vec<String>)
        ensures
            string_views(r@) == connected_names_spec(string_views(self.lines@)),
    {
        let ghost lv = string_views(self.lines@);
        let mut out: Vec<String> = Vec::new();
        let mut i: usize = 0;
        proof {
            assert(lv.skip(0) =~= lv);
            assert(string_views(out@) + connected_names_spec(lv) =~= connected_names_spec(lv));
        }
        while i < self.lines.len()
            invariant
                0 <= i <= self.lines@.len(),
                lv == string_views(self.lines@),
                connected_names_spec(lv) =~= string_views(out@) + connected_names_spec(
                    lv.skip(i as int),
                ),
            decreases self.lines@.len() - i,
        {
            let ghost rest = lv.skip(i as int);
            proof {
                assert(rest.len() > 0);
                assert(rest[0] == lv[i as int]);
                assert(rest.drop_first() =~= lv.skip(i + 1));
            }
            let line = self.lines[i].as_str();
            let mut name: Option<String> = None;
            if starts_with_str(line, "Output ") {
                let llen = line.unicode_len();
                match rfind_char(line, '(') {
                    Some(open) => match rfind_char(line, ')') {
                        Some(close) => {
                            proof {
                                lemma_char_back_some(line@, '(', line@.len() - 1, open as int);
                                lemma_char_back_some(line@, ')', line@.len() - 1, close as int);
                            }
                            if close > open + 1 {
                                name = Some(line.substring_char(open + 1, close).to_owned());
                            }
                        },
                        None => {},
                    },
                    None => {},
                }
            }
            proof {
                match &name {
                    Some(n) => assert(output_name_of_line(lv[i as int]) == Some(n@)),
                    None => assert(output_name_of_line(lv[i as int]) is None),
                }
            }
            match name {
                Some(n) => {
                    let ghost old_out = out@;
                    let ghost nv = n@;
                    out.push(n);
                    proof {
                        assert(string_views(out@) =~= string_views(old_out).push(nv));
                        assert(string_views(old_out).push(nv) + connected_names_spec(
                            lv.skip(i + 1),
                        ) =~= string_views(old_out) + (seq![nv] + connected_names_spec(
                            lv.skip(i + 1),
                        )));
                    }
                },
                None => {},
            }
            i += 1;
        }
        proof {
            assert(connected_names_spec(lv.skip(i as int)) =~= Seq::<Seq<char>>::empty());
            assert(string_views(out@) + Seq::<Seq<char>>::empty() =~= string_views(out@));
        }
        out
    }

    /// The names of the structured records whose HDMI classification equals
    /// `want_hdmi`.
    fn names_by_class(&self, want_hdmi: bool) -> (r: Vec<String>)
        ensures
            string_views(r@) == output_names_by_class(output_views(self.outputs@), want_hdmi),
    {
        let ghost ov = output_views(self.outputs@);
        let mut out: Vec<String> = Vec::new();
        let mut i: usize = 0;
        proof {
            assert(ov.skip(0) =~= ov);
            assert(string_views(out@) + output_names_by_class(ov, want_hdmi)
                =~= output_names_by_class(ov, want_hdmi));
        }
        while i < self.outputs.len()
            invariant
                0 <= i <= self.outputs@.len(),
                ov == output_views(self.outputs@),
                output_names_by_class(ov, want_hdmi) =~= string_views(out@)
                    + output_names_by_class(ov.skip(i as int), want_hdmi),
            decreases self.outputs@.len() - i,
        {
            let ghost rest = ov.skip(i as int);
            proof {
                assert(rest.len() > 0);
                assert(rest[0] == ov[i as int]);
                assert(rest.drop_first() =~= ov.skip(i + 1));
            }
            if contains_hdmi_str(self.outputs[i].name.as_str()) == want_hdmi {
                let ghost old_out = out@;
                out.push(self.outputs[i].name.clone());
                proof {
                    assert(string_views(out@) =~= string_views(old_out).push(ov[i as int].name));
                    assert(string_views(old_out).push(ov[i as int].name) + output_names_by_class(
                        ov.skip(i + 1),
                        want_hdmi,
                    ) =~= string_views(old_out) + (seq![ov[i as int].name]
                        + output_names_by_class(ov.skip(i + 1), want_hdmi)));
                }
            }
            i += 1;
        }
        proof {
            assert(output_names_by_class(ov.skip(i as int), want_hdmi) =~= Seq::<
                Seq<char>,
            >::empty());
            assert(string_views(out@) + Seq::<Seq<char>>::empty() =~= string_views(out@));
        }
        out
    }

    /// The names of the HDMI-class outputs, in discovery order.
    pub fn list_hdmi_names(&self) -> (r: Vec<String>)
        ensures
            string_views(r@) == output_names_by_class(output_views(self.outputs@), true),
    {
        self.names_by_class(true)
    }

    /// The names of the non-HDMI outputs, in discovery order.
    pub fn list_non_hdmi_names(&self) -> (r: Vec<String>)
        ensures
            string_views(r@) == output_names_by_class(output_views(self.outputs@), false),
    {
        self.names_by_class(false)
    }
}

} // verus!
