//! Audio topology: parsing the audio control tool's status dump into typed
//! sink records, classifying HDMI sinks, and the routing decisions built on
//! top of the parsed snapshot.

use vstd::prelude::*;
use vstd::string::StrSliceExecFns;
use vstd::string::StringExecFns;

use crate::contains_hdmi;
use crate::errors::CastError;
use crate::text::char_from;
use crate::text::contains_char;
use crate::text::contains_hdmi_str;
use crate::text::find_digit;
use crate::text::find_first;
use crate::text::find_non_digit;
use crate::text::find_substr;
use crate::text::first_number;
use crate::text::line_views;
use crate::text::pair_views;
use crate::text::split_lines;
use crate::text::split_lines_spec;
use crate::text::starts_with_str;
use crate::text::str_eq;
use crate::text::string_views;
use crate::text::is_prefix;
use crate::text::trim_spec;
use crate::text::trim_str;

verus! {

// ---------------------------------------------------------------------------
// The sink record
// ---------------------------------------------------------------------------

/// One audio sink as reported by the audio control surface.
///
/// `is_hdmi` is derived from `name` (case-insensitive substring "hdmi") and is
/// never persisted separately from it.
pub struct AudioSink {
    pub id: String,
    pub name: String,
    pub is_default: bool,
    pub is_hdmi: bool,
}

/// The mathematical value of an [`AudioSink`].
pub struct AudioSinkView {
    pub id: Seq<char>,
    pub name: Seq<char>,
    pub is_default: bool,
    pub is_hdmi: bool,
}

impl View for AudioSink {
    type V = AudioSinkView;

    open spec fn view(&self) -> AudioSinkView {
        AudioSinkView {
            id: self.id@,
            name: self.name@,
            is_default: self.is_default,
            is_hdmi: self.is_hdmi,
        }
    }
}

impl Clone for AudioSink {
    fn clone(&self) -> (r: Self)
        ensures
            r@ == self@,
    {
        AudioSink {
            id: self.id.clone(),
            name: self.name.clone(),
            is_default: self.is_default,
            is_hdmi: self.is_hdmi,
        }
    }
}

/// The views of a sequence of sinks.
pub open spec fn sink_views(v: Seq<AudioSink>) -> Seq<AudioSinkView> {
    Seq::new(v.len(), |i: int| v[i]@)
}

/// The view of an optional sink.
pub open spec fn sink_view_opt(r: Option<AudioSink>) -> Option<AudioSinkView> {
    match r {
        Some(s) => Some(s@),
        None => None,
    }
}

/// The one-line rendering of a sink: default marker, id, and display name.
pub open spec fn display_line_spec(v: AudioSinkView) -> Seq<char> {
    (if v.is_default {
        "*"@
    } else {
        " "@
    }) + " "@ + v.id + ". "@ + v.name
}

impl AudioSink {
    pub fn display_line(&self) -> (r: String)
        ensures
            r@ == display_line_spec(self@),
    {
        let mut r = String::new();
        if self.is_default {
            r.append("*");
        } else {
            r.append(" ");
        }
        r.append(" ");
        r.append(self.id.as_str());
        r.append(". ");
        r.append(self.name.as_str());
        r
    }
}

// ---------------------------------------------------------------------------
// Digit extraction
// ---------------------------------------------------------------------------

/// The first maximal run of ASCII digits in `input`, if any.
pub fn extract_first_number(input: &str) -> (r: Option<String>)
    ensures
        match r {
            Some(x) => first_number(input@) == Some(x@),
            None => first_number(input@) is None,
        },
{
    let slen = input.unicode_len();
    let a = find_digit(input, 0);
    if a == slen {
        return None;
    }
    let b = find_non_digit(input, a);
    Some(input.substring_char(a, b).to_owned())
}

// ---------------------------------------------------------------------------
// Sink line parsing
// ---------------------------------------------------------------------------

/// The sink parsed from one (already trimmed) status line, if the line is
/// well formed: it must contain a dot, a digit run (the id), and a `". "`
/// separator followed by a non-empty display name; a trailing `" ["`
/// annotation is cut off. The default marker is any `'*'` on the line.
pub open spec fn sink_line_spec(l: Seq<char>) -> Option<AudioSinkView> {
    if char_from(l, '.', 0) >= l.len() {
        None
    } else {
        match first_number(l) {
            None => None,
            Some(id) => match find_first(l, ". "@) {
                None => None,
                Some(p) => {
                    let after = trim_spec(l.subrange(p + 2, l.len() as int));
                    let name0 = match find_first(after, " ["@) {
                        Some(q) => after.subrange(0, q),
                        None => after,
                    };
                    let name = trim_spec(name0);
                    if name.len() == 0 {
                        None
                    } else {
                        Some(
                            AudioSinkView {
                                id: id,
                                name: name,
                                is_default: char_from(l, '*', 0) < l.len(),
                                is_hdmi: contains_hdmi(name),
                            },
                        )
                    }
                },
            },
        }
    }
}

pub fn parse_sink_line(line: &str) -> (r: Option<AudioSink>)
    ensures
        sink_view_opt(r) == sink_line_spec(line@),
{
    if !contains_char(line, '.') {
        return None;
    }
    let id = match extract_first_number(line) {
        Some(x) => x,
        None => {
            return None;
        },
    };
    let p = match find_substr(line, ". ") {
        Some(p) => p,
        None => {
            return None;
        },
    };
    let slen = line.unicode_len();
    proof {
        reveal_strlit(". ");
        crate::text::lemma_find_from_some(line@, ". "@, 0, p as int);
    }
    let after_raw = line.substring_char(p + 2, slen);
    let after = trim_str(after_raw);
    let name0 = match find_substr(after, " [") {
        Some(q) => {
            proof {
                crate::text::lemma_find_from_some(after@, " ["@, 0, q as int);
            }
            after.substring_char(0, q)
        },
        None => after,
    };
    let name_s = trim_str(name0);
    if name_s.unicode_len() == 0 {
        return None;
    }
    let is_hdmi = contains_hdmi_str(name_s);
    let is_default = contains_char(line, '*');
    Some(AudioSink { id, name: name_s.to_owned(), is_default, is_hdmi })
}

// ---------------------------------------------------------------------------
// Status dump scanning
// ---------------------------------------------------------------------------

/// Marker opening the Sinks subsection of the Audio section.
pub open spec fn is_sinks_marker(l: Seq<char>) -> bool {
    is_prefix(l, "\u{251C}\u{2500} Sinks:"@) || is_prefix(l, "\u{2514}\u{2500} Sinks:"@)
}

/// Marker of a sibling subsection that ends the Sinks subsection.
pub open spec fn is_sibling_marker(l: Seq<char>) -> bool {
    ||| is_prefix(l, "\u{251C}\u{2500} Sources:"@)
    ||| is_prefix(l, "\u{2514}\u{2500} Sources:"@)
    ||| is_prefix(l, "\u{251C}\u{2500} Streams:"@)
    ||| is_prefix(l, "\u{2514}\u{2500} Streams:"@)
    ||| is_prefix(l, "\u{251C}\u{2500} Filters:"@)
    ||| is_prefix(l, "\u{2514}\u{2500} Filters:"@)
}

/// The scan over trimmed status lines from index `i` onward: enter the Audio
/// section on its header, enter the Sinks subsection on its marker, stop at a
/// sibling subsection or at the next top-level section, and parse each line
/// seen while inside the subsection.
pub open spec fn sinks_scan(
    lines: Seq<Seq<char>>,
    i: int,
    in_audio: bool,
    in_sinks: bool,
) -> Seq<AudioSinkView>
    decreases lines.len() - i,
{
    if i < 0 || i >= lines.len() {
        Seq::empty()
    } else {
        let l = trim_spec(lines[i]);
        if l == "Audio"@ {
            sinks_scan(lines, i + 1, true, false)
        } else if in_audio && (l == "Video"@ || l == "Settings"@) {
            Seq::empty()
        } else if !in_audio {
            sinks_scan(lines, i + 1, false, in_sinks)
        } else if is_sinks_marker(l) {
            sinks_scan(lines, i + 1, true, true)
        } else if in_sinks && is_sibling_marker(l) {
            Seq::empty()
        } else if in_sinks {
            match sink_line_spec(l) {
                Some(v) => seq![v] + sinks_scan(lines, i + 1, true, true),
                None => sinks_scan(lines, i + 1, true, true),
            }
        } else {
            sinks_scan(lines, i + 1, true, false)
        }
    }
}

/// The trimmed lines that the scan visits while inside the Sinks subsection.
pub open spec fn sink_region(
    lines: Seq<Seq<char>>,
    i: int,
    in_audio: bool,
    in_sinks: bool,
) -> Seq<Seq<char>>
    decreases lines.len() - i,
{
    if i < 0 || i >= lines.len() {
        Seq::empty()
    } else {
        let l = trim_spec(lines[i]);
        if l == "Audio"@ {
            sink_region(lines, i + 1, true, false)
        } else if in_audio && (l == "Video"@ || l == "Settings"@) {
            Seq::empty()
        } else if !in_audio {
            sink_region(lines, i + 1, false, in_sinks)
        } else if is_sinks_marker(l) {
            sink_region(lines, i + 1, true, true)
        } else if in_sinks && is_sibling_marker(l) {
            Seq::empty()
        } else if in_sinks {
            seq![l] + sink_region(lines, i + 1, true, true)
        } else {
            sink_region(lines, i + 1, true, false)
        }
    }
}

/// The sinks parsed from a whole status dump.
pub open spec fn parsed_sinks_spec(status: Seq<char>) -> Seq<AudioSinkView> {
    sinks_scan(split_lines_spec(status), 0, false, false)
}

/// The Sinks-subsection lines of a whole status dump.
pub open spec fn sink_region_spec(status: Seq<char>) -> Seq<Seq<char>> {
    sink_region(split_lines_spec(status), 0, false, false)
}

/// Parse the status dump emitted by the audio control surface into sink
/// records. Malformed lines inside the Sinks subsection are skipped, never an
/// error: garbled tool output degrades to fewer discovered sinks.
pub fn parse_audio_sinks(status_output: &str) -> (r: Vec<AudioSink>)
    ensures
        sink_views(r@) == parsed_sinks_spec(status_output@),
{
    let lines = split_lines(status_output);
    let ghost lv = line_views(lines@);
    let mut sinks: Vec<AudioSink> = Vec::new();
    let mut in_audio = false;
    let mut in_sinks = false;
    let mut i: usize = 0;
    proof {
        assert(sink_views(sinks@) + sinks_scan(lv, 0, false, false) =~= sinks_scan(
            lv,
            0,
            false,
            false,
        ));
    }
    while i < lines.len()
        invariant
            0 <= i <= lines@.len(),
            lv == line_views(lines@),
            parsed_sinks_spec(status_output@) =~= sink_views(sinks@) + sinks_scan(
                lv,
                i as int,
                in_audio,
                in_sinks,
            ),
        decreases lines@.len() - i,
    {
        let line = trim_str(lines[i]);
        proof {
            assert(line@ == trim_spec(lv[i as int]));
        }
        if str_eq(line, "Audio") {
            in_audio = true;
            in_sinks = false;
        } else if in_audio && (str_eq(line, "Video") || str_eq(line, "Settings")) {
            proof {
                assert(sinks_scan(lv, i as int, in_audio, in_sinks) =~= Seq::<
                    AudioSinkView,
                >::empty());
                assert(sink_views(sinks@) + Seq::<AudioSinkView>::empty() =~= sink_views(sinks@));
            }
            return sinks;
        } else if !in_audio {
        } else if starts_with_str(line, "\u{251C}\u{2500} Sinks:") || starts_with_str(
            line,
            "\u{2514}\u{2500} Sinks:",
        ) {
            in_sinks = true;
        } else if in_sinks && (starts_with_str(line, "\u{251C}\u{2500} Sources:")
            || starts_with_str(line, "\u{2514}\u{2500} Sources:") || starts_with_str(
            line,
            "\u{251C}\u{2500} Streams:",
        ) || starts_with_str(line, "\u{2514}\u{2500} Streams:") || starts_with_str(
            line,
            "\u{251C}\u{2500} Filters:",
        ) || starts_with_str(line, "\u{2514}\u{2500} Filters:")) {
            proof {
                assert(sinks_scan(lv, i as int, in_audio, in_sinks) =~= Seq::<
                    AudioSinkView,
                >::empty());
                assert(sink_views(sinks@) + Seq::<AudioSinkView>::empty() =~= sink_views(sinks@));
            }
            return sinks;
        } else if in_sinks {
            match parse_sink_line(line) {
                Some(sink) => {
                    let ghost old_sinks = sinks@;
                    let ghost sv = sink@;
                    sinks.push(sink);
                    proof {
                        assert(sink_views(sinks@) =~= sink_views(old_sinks).push(sv));
                        assert(sink_views(old_sinks).push(sv) + sinks_scan(
                            lv,
                            i + 1,
                            true,
                            true,
                        ) =~= sink_views(old_sinks) + (seq![sv] + sinks_scan(lv, i + 1, true, true)));
                    }
                },
                None => {},
            }
        }
        i += 1;
    }
    proof {
        assert(sinks_scan(lv, i as int, in_audio, in_sinks) =~= Seq::<AudioSinkView>::empty());
        assert(sink_views(sinks@) + Seq::<AudioSinkView>::empty() =~= sink_views(sinks@));
    }
    sinks
}

// ---------------------------------------------------------------------------
// Counting: the parse result against the raw subsection
// ---------------------------------------------------------------------------

/// The sinks parsed from a plain run of lines, one per well-formed line.
pub open spec fn parse_region_lines(ls: Seq<Seq<char>>) -> Seq<AudioSinkView>
    decreases ls.len(),
{
    if ls.len() == 0 {
        Seq::empty()
    } else {
        match sink_line_spec(ls[0]) {
            Some(v) => seq![v] + parse_region_lines(ls.drop_first()),
            None => parse_region_lines(ls.drop_first()),
        }
    }
}

/// How many lines of the run are well formed.
pub open spec fn count_parsable(ls: Seq<Seq<char>>) -> nat
    decreases ls.len(),
{
    if ls.len() == 0 {
        0
    } else {
        (if sink_line_spec(ls[0]) is Some {
            1nat
        } else {
            0nat
        }) + count_parsable(ls.drop_first())
    }
}

proof fn lemma_scan_is_region_parse(lines: Seq<Seq<char>>, i: int, in_audio: bool, in_sinks: bool)
    ensures
        sinks_scan(lines, i, in_audio, in_sinks) == parse_region_lines(
            sink_region(lines, i, in_audio, in_sinks),
        ),
    decreases lines.len() - i,
{
    if i < 0 || i >= lines.len() {
    } else {
        let l = trim_spec(lines[i]);
        if l == "Audio"@ {
            lemma_scan_is_region_parse(lines, i + 1, true, false);
        } else if in_audio && (l == "Video"@ || l == "Settings"@) {
        } else if !in_audio {
            lemma_scan_is_region_parse(lines, i + 1, false, in_sinks);
        } else if is_sinks_marker(l) {
            lemma_scan_is_region_parse(lines, i + 1, true, true);
        } else if in_sinks && is_sibling_marker(l) {
        } else if in_sinks {
            lemma_scan_is_region_parse(lines, i + 1, true, true);
            let region = sink_region(lines, i, in_audio, in_sinks);
            assert(region == seq![l] + sink_region(lines, i + 1, true, true));
            assert(region.drop_first() =~= sink_region(lines, i + 1, true, true));
            assert(region[0] == l);
        } else {
            lemma_scan_is_region_parse(lines, i + 1, true, false);
        }
    }
}

proof fn lemma_region_parse_count(ls: Seq<Seq<char>>)
    ensures
        parse_region_lines(ls).len() == count_parsable(ls),
        parse_region_lines(ls).len() <= ls.len(),
    decreases ls.len(),
{
    if ls.len() > 0 {
        lemma_region_parse_count(ls.drop_first());
    }
}

/// For every status dump, each well-formed line inside the Sinks subsection
/// contributes exactly one parsed sink and malformed lines contribute none,
/// so the number of parsed sinks equals the number of well-formed subsection
/// lines and never exceeds the subsection's raw line count.
pub proof fn lemma_sink_count(status: Seq<char>)
    ensures
        parsed_sinks_spec(status).len() == count_parsable(sink_region_spec(status)),
        parsed_sinks_spec(status).len() <= sink_region_spec(status).len(),
{
    lemma_scan_is_region_parse(split_lines_spec(status), 0, false, false);
    lemma_region_parse_count(sink_region_spec(status));
}

/// A parsed sink is classified as HDMI exactly when its display name contains
/// "hdmi" ignoring case, independent of its position or default marker.
pub proof fn lemma_is_hdmi_iff_name_matches(l: Seq<char>)
    ensures
        sink_line_spec(l) matches Some(v) ==> v.is_hdmi == contains_hdmi(v.name),
{
}

// ---------------------------------------------------------------------------
// Per-node inspection: node name extraction
// ---------------------------------------------------------------------------

/// The node name assigned on one inspection line, if the line carries a
/// complete, non-empty `node.name = "<value>"` assignment.
pub open spec fn node_name_of_line(l: Seq<char>) -> Option<Seq<char>> {
    let m = "node.name = \""@;
    match find_first(l, m) {
        None => None,
        Some(idx) => {
            let rest = l.subrange(idx + m.len(), l.len() as int);
            let e = char_from(rest, '"', 0);
            if e >= rest.len() {
                None
            } else {
                let nm = trim_spec(rest.subrange(0, e));
                if nm.len() == 0 {
                    None
                } else {
                    Some(nm)
                }
            }
        },
    }
}

/// The first line from `i` onward that yields a node name.
pub open spec fn node_name_scan(lines: Seq<Seq<char>>, i: int) -> Option<Seq<char>>
    decreases lines.len() - i,
{
    if i < 0 || i >= lines.len() {
        None
    } else {
        match node_name_of_line(lines[i]) {
            Some(n) => Some(n),
            None => node_name_scan(lines, i + 1),
        }
    }
}

/// The node name found in a whole inspection dump, if any.
pub open spec fn node_name_spec(dump: Seq<char>) -> Option<Seq<char>> {
    node_name_scan(split_lines_spec(dump), 0)
}

fn node_name_of_line_exec(line: &str) -> (r: Option<String>)
    ensures
        match r {
            Some(x) => node_name_of_line(line@) == Some(x@),
            None => node_name_of_line(line@) is None,
        },
{
    let idx = match find_substr(line, "node.name = \"") {
        Some(idx) => idx,
        None => {
            return None;
        },
    };
    let slen = line.unicode_len();
    let mlen = "node.name = \"".unicode_len();
    proof {
        crate::text::lemma_find_from_some(line@, "node.name = \""@, 0, idx as int);
    }
    let rest = line.substring_char(idx + mlen, slen);
    let e = crate::text::find_char_from(rest, '"', 0);
    if e == rest.unicode_len() {
        return None;
    }
    let nm = trim_str(rest.substring_char(0, e));
    if nm.unicode_len() == 0 {
        return None;
    }
    Some(nm.to_owned())
}

/// Look for the first `node.name = "<value>"` assignment in a per-node
/// inspection dump; an empty value is excluded.
pub fn parse_node_name_from_wpctl_inspect(inspect_output: &str) -> (r: Option<String>)
    ensures
        match r {
            Some(x) => node_name_spec(inspect_output@) == Some(x@),
            None => node_name_spec(inspect_output@) is None,
        },
{
    let lines = split_lines(inspect_output);
    let ghost lv = line_views(lines@);
    let mut i: usize = 0;
    while i < lines.len()
        invariant
            0 <= i <= lines@.len(),
            lv == line_views(lines@),
            node_name_spec(inspect_output@) == node_name_scan(lv, i as int),
        decreases lines@.len() - i,
    {
        match node_name_of_line_exec(lines[i]) {
            Some(x) => {
                return Some(x);
            },
            None => {},
        }
        i += 1;
    }
    None
}

// ---------------------------------------------------------------------------
// Short tabular output of the stream/card management tool
// ---------------------------------------------------------------------------

/// The first whitespace-delimited token of each line that has one.
pub open spec fn first_tokens_spec(lines: Seq<Seq<char>>) -> Seq<Seq<char>>
    decreases lines.len(),
{
    if lines.len() == 0 {
        Seq::empty()
    } else {
        match crate::text::first_token(lines[0]) {
            Some(t) => seq![t] + first_tokens_spec(lines.drop_first()),
            None => first_tokens_spec(lines.drop_first()),
        }
    }
}

/// The second whitespace-delimited token of each line that has one.
pub open spec fn second_tokens_spec(lines: Seq<Seq<char>>) -> Seq<Seq<char>>
    decreases lines.len(),
{
    if lines.len() == 0 {
        Seq::empty()
    } else {
        match crate::text::second_token(lines[0]) {
            Some(t) => seq![t] + second_tokens_spec(lines.drop_first()),
            None => second_tokens_spec(lines.drop_first()),
        }
    }
}

/// The active stream identifiers in a "list short" dump: the first
/// whitespace-delimited token of each line.
pub fn parse_sink_input_ids(list_output: &str) -> (r: Vec<String>)
    ensures
        string_views(r@) == first_tokens_spec(split_lines_spec(list_output@)),
{
    let lines = split_lines(list_output);
    let ghost lv = line_views(lines@);
    let mut out: Vec<String> = Vec::new();
    let mut i: usize = 0;
    proof {
        assert(lv.skip(0) =~= lv);
        assert(string_views(out@) + first_tokens_spec(lv) =~= first_tokens_spec(lv));
    }
    while i < lines.len()
        invariant
            0 <= i <= lines@.len(),
            lv == line_views(lines@),
            first_tokens_spec(lv) =~= string_views(out@) + first_tokens_spec(lv.skip(i as int)),
        decreases lines@.len() - i,
    {
        let ghost rest = lv.skip(i as int);
        proof {
            assert(rest.len() > 0);
            assert(rest[0] == lv[i as int]);
            assert(rest.drop_first() =~= lv.skip(i + 1));
        }
        match crate::text::first_token_str(lines[i]) {
            Some(t) => {
                let ghost old_out = out@;
                out.push(t.to_owned());
                proof {
                    assert(string_views(out@) =~= string_views(old_out).push(t@));
                    assert(string_views(old_out).push(t@) + first_tokens_spec(lv.skip(i + 1))
                        =~= string_views(old_out) + (seq![t@] + first_tokens_spec(
                        lv.skip(i + 1),
                    )));
                }
            },
            None => {},
        }
        i += 1;
    }
    proof {
        assert(first_tokens_spec(lv.skip(i as int)) =~= Seq::<Seq<char>>::empty());
        assert(string_views(out@) + Seq::<Seq<char>>::empty() =~= string_views(out@));
    }
    out
}

/// The hardware cards in a "list short cards" dump: the second
/// whitespace-delimited token (the card name) of each line that has one.
pub fn parse_pactl_cards(list_output: &str) -> (r: Vec<String>)
    ensures
        string_views(r@) == second_tokens_spec(split_lines_spec(list_output@)),
{
    let lines = split_lines(list_output);
    let ghost lv = line_views(lines@);
    let mut out: Vec<String> = Vec::new();
    let mut i: usize = 0;
    proof {
        assert(lv.skip(0) =~= lv);
        assert(string_views(out@) + second_tokens_spec(lv) =~= second_tokens_spec(lv));
    }
    while i < lines.len()
        invariant
            0 <= i <= lines@.len(),
            lv == line_views(lines@),
            second_tokens_spec(lv) =~= string_views(out@) + second_tokens_spec(lv.skip(i as int)),
        decreases lines@.len() - i,
    {
        let ghost rest = lv.skip(i as int);
        proof {
            assert(rest.len() > 0);
            assert(rest[0] == lv[i as int]);
            assert(rest.drop_first() =~= lv.skip(i + 1));
        }
        match crate::text::second_token_str(lines[i]) {
            Some(t) => {
                let ghost old_out = out@;
                out.push(t.to_owned());
                proof {
                    assert(string_views(out@) =~= string_views(old_out).push(t@));
                    assert(string_views(old_out).push(t@) + second_tokens_spec(lv.skip(i + 1))
                        =~= string_views(old_out) + (seq![t@] + second_tokens_spec(
                        lv.skip(i + 1),
                    )));
                }
            },
            None => {},
        }
        i += 1;
    }
    proof {
        assert(second_tokens_spec(lv.skip(i as int)) =~= Seq::<Seq<char>>::empty());
        assert(string_views(out@) + Seq::<Seq<char>>::empty() =~= string_views(out@));
    }
    out
}

// ---------------------------------------------------------------------------
// The audio topology snapshot
// ---------------------------------------------------------------------------

/// Index of the first sink at or after `i` whose HDMI classification equals
/// `want_hdmi`, else `sv.len()`.
pub open spec fn first_class_idx(sv: Seq<AudioSinkView>, want_hdmi: bool, i: int) -> int
    decreases sv.len() - i,
{
    if i < 0 || i >= sv.len() {
        sv.len() as int
    } else if sv[i].is_hdmi == want_hdmi {
        i
    } else {
        first_class_idx(sv, want_hdmi, i + 1)
    }
}

/// The one-line renderings of a sequence of sinks.
pub open spec fn display_lines_spec(sv: Seq<AudioSinkView>) -> Seq<Seq<char>> {
    Seq::new(sv.len(), |i: int| display_line_spec(sv[i]))
}

/// A snapshot of the sinks parsed from one status query. Topology records are
/// snapshots, never live references: callers re-query after any mutation that
/// later logic depends on.
pub struct AudioAdapter {
    pub sinks: Vec<AudioSink>,
}

impl AudioAdapter {
    /// Parse one status dump into a snapshot.
    pub fn from_status(status: &str) -> (a: AudioAdapter)
        ensures
            sink_views(a.sinks@) == parsed_sinks_spec(status@),
    {
        AudioAdapter { sinks: parse_audio_sinks(status) }
    }

    /// Wrap an already-parsed sink list.
    pub fn new(sinks: Vec<AudioSink>) -> (a: AudioAdapter)
        ensures
            a.sinks == sinks,
    {
        AudioAdapter { sinks }
    }

    /// The sink records of the snapshot.
    pub fn list_sink_objects(&self) -> (r: Vec<AudioSink>)
        ensures
            sink_views(r@) == sink_views(self.sinks@),
    {
        let mut out: Vec<AudioSink> = Vec::new();
        let mut i: usize = 0;
        while i < self.sinks.len()
            invariant
                0 <= i <= self.sinks@.len(),
                out@.len() == i,
                forall|k: int| 0 <= k < i ==> out@[k]@ == self.sinks@[k]@,
            decreases self.sinks@.len() - i,
        {
            out.push(self.sinks[i].clone());
            i += 1;
        }
        proof {
            assert(sink_views(out@) =~= sink_views(self.sinks@));
        }
        out
    }

    /// The one-line renderings of the snapshot's sinks, in order.
    pub fn list_sinks(&self) -> (r: Vec<String>)
        ensures
            string_views(r@) == display_lines_spec(sink_views(self.sinks@)),
    {
        let mut out: Vec<String> = Vec::new();
        let mut i: usize = 0;
        while i < self.sinks.len()
            invariant
                0 <= i <= self.sinks@.len(),
                out@.len() == i,
                forall|k: int| 0 <= k < i ==> out@[k]@ == display_line_spec(self.sinks@[k]@),
            decreases self.sinks@.len() - i,
        {
            out.push(self.sinks[i].display_line());
            i += 1;
        }
        proof {
            assert(string_views(out@) =~= display_lines_spec(sink_views(self.sinks@)));
        }
        out
    }

    /// The first sink whose HDMI classification equals `want_hdmi`, if any.
    pub fn find_sink_by_class(&self, want_hdmi: bool) -> (r: Option<AudioSink>)
        ensures
            ({
                let sv = sink_views(self.sinks@);
                let k = first_class_idx(sv, want_hdmi, 0);
                match r {
                    Some(s) => k < sv.len() && s@ == sv[k],
                    None => k == sv.len(),
                }
            }),
    {
        let ghost sv = sink_views(self.sinks@);
        let mut i: usize = 0;
        while i < self.sinks.len()
            invariant
                0 <= i <= self.sinks@.len(),
                sv == sink_views(self.sinks@),
                first_class_idx(sv, want_hdmi, 0) == first_class_idx(sv, want_hdmi, i as int),
            decreases self.sinks@.len() - i,
        {
            if self.sinks[i].is_hdmi == want_hdmi {
                return Some(self.sinks[i].clone());
            }
            i += 1;
        }
        None
    }

    /// The one-line rendering of the first HDMI sink, if any.
    pub fn find_first_hdmi_sink(&self) -> (r: Option<String>)
        ensures
            ({
                let sv = sink_views(self.sinks@);
                let k = first_class_idx(sv, true, 0);
                match r {
                    Some(x) => k < sv.len() && x@ == display_line_spec(sv[k]),
                    None => k == sv.len(),
                }
            }),
    {
        match self.find_sink_by_class(true) {
            Some(s) => Some(s.display_line()),
            None => None,
        }
    }

    /// The first HDMI sink of the snapshot, chosen as the sink to make the
    /// new default. The caller issues the actual default switch and stream
    /// migration for the returned sink.
    pub fn select_first_hdmi_sink(&self) -> (r: Option<AudioSink>)
        ensures
            ({
                let sv = sink_views(self.sinks@);
                let k = first_class_idx(sv, true, 0);
                match r {
                    Some(s) => k < sv.len() && s@ == sv[k],
                    None => k == sv.len(),
                }
            }),
    {
        self.find_sink_by_class(true)
    }

    /// The sink id to pass to the default-sink switch, extracted from a
    /// one-line sink rendering; rejected when the line carries no digits.
    pub fn set_default_by_name(&self, sink_line: &str) -> (r: Result<String, CastError>)
        ensures
            match r {
                Ok(id) => first_number(sink_line@) == Some(id@),
                Err(e) => first_number(sink_line@) is None && e == CastError::ParseError,
            },
    {
        match extract_first_number(sink_line) {
            Some(id) => Ok(id),
            None => Err(CastError::ParseError),
        }
    }
}

/// Quick switch to TV audio: the first HDMI sink of the snapshot becomes the
/// new default; `None` when the snapshot has no HDMI sink.
pub fn switch_to_hdmi(audio: &AudioAdapter) -> (r: Option<AudioSink>)
    ensures
        ({
            let sv = sink_views(audio.sinks@);
            let k = first_class_idx(sv, true, 0);
            match r {
                Some(s) => k < sv.len() && s@ == sv[k],
                None => k == sv.len(),
            }
        }),
{
    audio.select_first_hdmi_sink()
}

// ---------------------------------------------------------------------------
// Stream migration outcome
// ---------------------------------------------------------------------------

/// How many of the attempted moves reported success.
pub open spec fn count_true(s: Seq<bool>) -> nat
    decreases s.len(),
{
    if s.len() == 0 {
        0
    } else {
        (if s[0] {
            1nat
        } else {
            0nat
        }) + count_true(s.drop_first())
    }
}

/// The result of a default-switch-and-migrate operation: an error exactly
/// when setting the default itself failed; otherwise the number of stream
/// moves that reported success, each individual failure merely uncounted.
pub open spec fn migration_result_spec(default_switched: bool, moves: Seq<bool>) -> Result<
    nat,
    CastError,
> {
    if default_switched {
        Ok(count_true(moves))
    } else {
        Err(CastError::CommandFailed)
    }
}

pub fn stream_migration_result(default_switched: bool, moves: &Vec<bool>) -> (r: Result<
    usize,
    CastError,
>)
    ensures
        match r {
            Ok(n) => default_switched && n == count_true(moves@),
            Err(e) => !default_switched && e == CastError::CommandFailed,
        },
{
    if !default_switched {
        return Err(CastError::CommandFailed);
    }
    let mut n: usize = 0;
    let mut i: usize = 0;
    proof {
        assert(moves@.skip(0) =~= moves@);
    }
    while i < moves.len()
        invariant
            0 <= i <= moves@.len(),
            n <= i,
            count_true(moves@) == n + count_true(moves@.skip(i as int)),
        decreases moves@.len() - i,
    {
        let ghost rest = moves@.skip(i as int);
        proof {
            assert(rest.len() > 0);
            assert(rest[0] == moves@[i as int]);
            assert(rest.drop_first() =~= moves@.skip(i + 1));
        }
        if moves[i] {
            n += 1;
        }
        i += 1;
    }
    Ok(n)
}

/// An individual stream's failure to move never makes the whole operation an
/// error: once the default switch succeeded the result is a success count,
/// whatever the move attempts did; the operation errors exactly when the
/// default switch failed.
pub proof fn lemma_migration_errors_only_from_set_default(moves: Seq<bool>)
    ensures
        migration_result_spec(true, moves) is Ok,
        migration_result_spec(false, moves) is Err,
{
}

// ---------------------------------------------------------------------------
// Card profile fallback
// ---------------------------------------------------------------------------

/// One card paired with each candidate profile, in priority order.
pub open spec fn profile_row(card: Seq<char>, profiles: Seq<Seq<char>>) -> Seq<
    (Seq<char>, Seq<char>),
> {
    Seq::new(profiles.len(), |j: int| (card, profiles[j]))
}

/// Every (card, profile) pair, cards in discovery order, profiles in priority
/// order within each card.
pub open spec fn cartesian_attempts(cards: Seq<Seq<char>>, profiles: Seq<Seq<char>>) -> Seq<
    (Seq<char>, Seq<char>),
>
    decreases cards.len(),
{
    if cards.len() == 0 {
        Seq::empty()
    } else {
        profile_row(cards[0], profiles) + cartesian_attempts(cards.drop_first(), profiles)
    }
}

/// The ordered attempts of the card-profile fallback: none when the
/// stream/card tool is unavailable or no cards are enumerable, else every
/// (card, profile) pair in order. The runner applies the first attempt that
/// succeeds and reports `true`, or `false` when none does.
pub open spec fn card_profile_plan(
    available: bool,
    cards: Seq<Seq<char>>,
    profiles: Seq<Seq<char>>,
) -> Seq<(Seq<char>, Seq<char>)> {
    if !available || cards.len() == 0 {
        Seq::empty()
    } else {
        cartesian_attempts(cards, profiles)
    }
}

pub fn card_profile_attempts(available: bool, cards: &Vec<String>, profiles: &Vec<String>) -> (r:
    Vec<(String, String)>)
    ensures
        pair_views(r@) == card_profile_plan(
            available,
            string_views(cards@),
            string_views(profiles@),
        ),
{
    let mut out: Vec<(String, String)> = Vec::new();
    if !available || cards.len() == 0 {
        proof {
            assert(pair_views(out@) =~= card_profile_plan(
                available,
                string_views(cards@),
                string_views(profiles@),
            ));
        }
        return out;
    }
    let ghost cv = string_views(cards@);
    let ghost pv = string_views(profiles@);
    let mut i: usize = 0;
    proof {
        assert(cv.skip(0) =~= cv);
        assert(pair_views(out@) + cartesian_attempts(cv, pv) =~= cartesian_attempts(cv, pv));
    }
    while i < cards.len()
        invariant
            0 <= i <= cards@.len(),
            cards@.len() > 0,
            available,
            cv == string_views(cards@),
            pv == string_views(profiles@),
            cartesian_attempts(cv, pv) =~= pair_views(out@) + cartesian_attempts(
                cv.skip(i as int),
                pv,
            ),
        decreases cards@.len() - i,
    {
        let ghost rest = cv.skip(i as int);
        let ghost row_start = out@;
        proof {
            assert(rest.len() > 0);
            assert(rest[0] == cv[i as int]);
            assert(rest.drop_first() =~= cv.skip(i + 1));
        }
        let mut j: usize = 0;
        while j < profiles.len()
            invariant
                0 <= j <= profiles@.len(),
                0 <= i < cards@.len(),
                cv == string_views(cards@),
                pv == string_views(profiles@),
                out@.len() == row_start.len() + j,
                forall|k: int| 0 <= k < row_start.len() ==> out@[k] == row_start[k],
                forall|k: int|
                    0 <= k < j ==> out@[row_start.len() + k] == (
                    cards@[i as int],
                    profiles@[k],
                ),
            decreases profiles@.len() - j,
        {
            out.push((cards[i].clone(), profiles[j].clone()));
            j += 1;
        }
        proof {
            assert(pair_views(out@) =~= pair_views(row_start) + profile_row(cv[i as int], pv));
            assert(cartesian_attempts(rest, pv) == profile_row(rest[0], pv) + cartesian_attempts(
                rest.drop_first(),
                pv,
            ));
            assert(pair_views(out@) + cartesian_attempts(cv.skip(i + 1), pv) =~= pair_views(
                row_start,
            ) + cartesian_attempts(rest, pv));
        }
        i += 1;
    }
    proof {
        assert(cartesian_attempts(cv.skip(i as int), pv) =~= Seq::<(Seq<char>, Seq<char>)>::empty());
        assert(pair_views(out@) + Seq::<(Seq<char>, Seq<char>)>::empty() =~= pair_views(out@));
    }
    out
}

/// The candidate profiles that expose a laptop (analog) sink.
pub open spec fn laptop_profile_candidates() -> Seq<Seq<char>> {
    seq![
        "output:analog-stereo+input:analog-stereo"@,
        "output:analog-stereo"@,
        "analog-stereo"@,
    ]
}

/// The candidate profiles that expose a TV (HDMI) sink.
pub open spec fn tv_profile_candidates() -> Seq<Seq<char>> {
    seq!["output:hdmi-stereo+input:analog-stereo"@, "output:hdmi-stereo"@, "hdmi-stereo"@]
}

impl AudioAdapter {
    /// The fallback attempts for switching a hardware card to a laptop
    /// (analog) profile, used when no non-HDMI sink currently exists.
    pub fn try_switch_card_profile_to_laptop(&self, pactl_available: bool, cards: &Vec<String>) -> (r:
        Vec<(String, String)>)
        ensures
            pair_views(r@) == card_profile_plan(
                pactl_available,
                string_views(cards@),
                laptop_profile_candidates(),
            ),
    {
        let mut profiles: Vec<String> = Vec::new();
        profiles.push(String::from_str("output:analog-stereo+input:analog-stereo"));
        profiles.push(String::from_str("output:analog-stereo"));
        profiles.push(String::from_str("analog-stereo"));
        proof {
            assert(string_views(profiles@) =~= laptop_profile_candidates());
        }
        card_profile_attempts(pactl_available, cards, &profiles)
    }

    /// The fallback attempts for switching a hardware card to a TV (HDMI)
    /// profile, used when no HDMI sink currently exists.
    pub fn try_switch_card_profile_to_tv(&self, pactl_available: bool, cards: &Vec<String>) -> (r:
        Vec<(String, String)>)
        ensures
            pair_views(r@) == card_profile_plan(
                pactl_available,
                string_views(cards@),
                tv_profile_candidates(),
            ),
    {
        let mut profiles: Vec<String> = Vec::new();
        profiles.push(String::from_str("output:hdmi-stereo+input:analog-stereo"));
        profiles.push(String::from_str("output:hdmi-stereo"));
        profiles.push(String::from_str("hdmi-stereo"));
        proof {
            assert(string_views(profiles@) =~= tv_profile_candidates());
        }
        card_profile_attempts(pactl_available, cards, &profiles)
    }
}

} // verus!
