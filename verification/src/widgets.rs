//! State of the text widgets of the demo shell, and the helper that
//! strips the shared leading indentation from a code sample before it is
//! shown.

use vstd::prelude::*;

verus! {

pub const SPACE: u8 = 32;

pub const TAB: u8 = 9;

pub const NEWLINE: u8 = 10;

/// State of the editable text demo.
#[derive(Debug)]
pub struct TextState {
    pub text: String,
}

impl Default for TextState {
    /// The starting text of the editor.
    fn default() -> (t: Self)
        ensures
            t.text@ == "Edit this text"@,
    {
        TextState { text: "Edit this text".to_owned() }
    }
}

/// A code sample shown beside its rendering.
#[derive(Debug)]
pub struct CodeExample {
    pub language: String,
    pub code: String,
}

impl Default for CodeExample {
    /// A minimal sample in the language the shell highlights by default.
    fn default() -> (c: Self)
        ensures
            c.language@ == "rs"@,
            c.code@ == "// A very simple example\n\nfn main() {\n\tprintln!(\"Hello world!\");\n}\n"@,
    {
        CodeExample {
            language: "rs".to_owned(),
            code: "// A very simple example\n\nfn main() {\n\tprintln!(\"Hello world!\");\n}\n".to_owned(),
        }
    }
}

/// True of a byte that indents a line.
pub open spec fn is_indent_byte(b: u8) -> bool {
    b == SPACE || b == TAB
}

/// True of a byte that indents a line.
pub fn is_indent(b: u8) -> (r: bool)
    ensures
        r == is_indent_byte(b),
{
    b == SPACE || b == TAB
}

/// Count of the bytes that indent the start of the text.
pub open spec fn indent_len(s: Seq<u8>) -> int
    decreases s.len(),
{
    if s.len() == 0 || !is_indent_byte(s[0]) {
        0
    } else {
        1 + indent_len(s.drop_first())
    }
}

/// `indent_len` is the position of the first byte that does not indent.
pub proof fn lemma_indent_len_characterization(s: Seq<u8>)
    ensures
        0 <= indent_len(s) <= s.len(),
        forall|k: int| 0 <= k < indent_len(s) ==> is_indent_byte(s[k]),
        indent_len(s) < s.len() ==> !is_indent_byte(s[indent_len(s)]),
    decreases s.len(),
{
    if s.len() > 0 && is_indent_byte(s[0]) {
        let t = s.drop_first();
        lemma_indent_len_characterization(t);
        assert forall|k: int| 0 <= k < indent_len(s) implies is_indent_byte(s[k]) by {
            if k > 0 {
                assert(t[k - 1] == s[k]);
            }
        }
        if indent_len(s) < s.len() {
            assert(t[indent_len(s) - 1] == s[indent_len(s)]);
        }
    }
}

/// A position with that characterization is `indent_len`.
pub proof fn lemma_indent_len_eq(s: Seq<u8>, v: int)
    requires
        0 <= v <= s.len(),
        forall|k: int| 0 <= k < v ==> is_indent_byte(s[k]),
        v < s.len() ==> !is_indent_byte(s[v]),
    ensures
        indent_len(s) == v,
{
    lemma_indent_len_characterization(s);
    if indent_len(s) < v {
        assert(is_indent_byte(s[indent_len(s)]));
    }
    if v < indent_len(s) {
        assert(is_indent_byte(s[v]));
    }
}

/// Position just after the first line break, or the end when none.
pub open spec fn line_end(s: Seq<u8>) -> int
    decreases s.len(),
{
    if s.len() == 0 {
        0
    } else if s[0] == NEWLINE {
        1
    } else {
        1 + line_end(s.drop_first())
    }
}

/// The position that a left-to-right scan for the first line break
/// reaches is where `line_end` ends the line.
pub proof fn lemma_line_end_eq(s: Seq<u8>, e: int)
    requires
        0 <= e <= s.len(),
        forall|k: int| 0 <= k < e ==> s[k] != NEWLINE,
        e < s.len() ==> s[e] == NEWLINE,
    ensures
        line_end(s) == if e < s.len() {
            e + 1
        } else {
            e
        },
    decreases s.len(),
{
    if s.len() > 0 {
        if s[0] == NEWLINE {
            assert(e == 0);
        } else {
            assert(e >= 1);
            let t = s.drop_first();
            assert forall|k: int| 0 <= k < e - 1 implies t[k] != NEWLINE by {
                assert(t[k] == s[k + 1]);
            }
            assert(e - 1 < t.len() ==> t[e - 1] == s[e]);
            lemma_line_end_eq(t, e - 1);
        }
    }
}

/// The text with its leading line breaks dropped.
pub open spec fn trim_newlines_spec(s: Seq<u8>) -> Seq<u8>
    decreases s.len(),
{
    if s.len() == 0 || s[0] != NEWLINE {
        s
    } else {
        trim_newlines_spec(s.drop_first())
    }
}

/// The suffix that a left-to-right scan past the leading line breaks
/// reaches is the trimmed text.
pub proof fn lemma_trim_newlines_eq(s: Seq<u8>, i: int)
    requires
        0 <= i <= s.len(),
        forall|k: int| 0 <= k < i ==> s[k] == NEWLINE,
        i < s.len() ==> s[i] != NEWLINE,
    ensures
        trim_newlines_spec(s) == s.subrange(i, s.len() as int),
    decreases s.len(),
{
    if i == 0 {
        assert(s.subrange(0, s.len() as int) =~= s);
    } else {
        assert(s[0] == NEWLINE);
        let t = s.drop_first();
        assert forall|k: int| 0 <= k < i - 1 implies t[k] == NEWLINE by {
            assert(t[k] == s[k + 1]);
        }
        assert(i - 1 < t.len() ==> t[i - 1] == s[i]);
        lemma_trim_newlines_eq(t, i - 1);
        assert(t.subrange(i - 1, t.len() as int) =~= s.subrange(i, s.len() as int));
    }
}

/// The text with the shared indentation stripped: every line loses
/// `first_indent` leading bytes, or its own indentation where that is
/// shorter.  The range clamps on `e` and `cut` only keep the recursion
/// total; the characterization lemmas show they never bite.
pub open spec fn strip_spec(s: Seq<u8>, first_indent: int) -> Seq<u8>
    decreases s.len(),
{
    if s.len() == 0 {
        Seq::<u8>::empty()
    } else {
        let e0 = line_end(s);
        let e = if e0 < 1 {
            1
        } else if e0 > s.len() {
            s.len() as int
        } else {
            e0
        };
        let line = s.subrange(0, e);
        let ind = indent_len(line);
        let cut0 = if first_indent < ind {
            first_indent
        } else {
            ind
        };
        let cut = if cut0 < 0 {
            0
        } else {
            cut0
        };
        line.subrange(cut, line.len() as int) + strip_spec(
            s.subrange(e, s.len() as int),
            first_indent,
        )
    }
}

/// Strips the first line's indentation from the start of every line:
/// each line loses as many leading blanks as the first line carries, or
/// its own indentation where that is shorter.
pub fn remove_leading_indentation(code: &Vec<u8>) -> (out: Vec<u8>)
    ensures
        out@ == strip_spec(code@, indent_len(code@)),
{
    let ghost sv = code@;
    let ghost fi = indent_len(sv);

    let mut first_indent: usize = 0;
    while first_indent < code.len() && is_indent(code[first_indent])
        invariant
            first_indent <= sv.len(),
            sv == code@,
            forall|k: int| 0 <= k < first_indent ==> is_indent_byte(sv[k]),
        decreases sv.len() - first_indent,
    {
        first_indent = first_indent + 1;
    }
    proof {
        lemma_indent_len_eq(sv, first_indent as int);
    }

    let mut out: Vec<u8> = Vec::new();
    let mut pos: usize = 0;
    proof {
        assert(sv.subrange(0, sv.len() as int) =~= sv);
        assert(out@ + strip_spec(sv, fi) =~= strip_spec(sv, fi));
    }
    while pos < code.len()
        invariant
            pos <= sv.len(),
            sv == code@,
            fi == first_indent as int,
            fi == indent_len(sv),
            strip_spec(sv, fi) == out@ + strip_spec(sv.subrange(pos as int, sv.len() as int), fi),
        decreases sv.len() - pos,
    {
        let ghost suffix = sv.subrange(pos as int, sv.len() as int);
        let mut e: usize = pos;
        while e < code.len() && code[e] != NEWLINE
            invariant
                pos <= e <= sv.len(),
                sv == code@,
                forall|k: int| pos <= k < e ==> sv[k] != NEWLINE,
            decreases sv.len() - e,
        {
            e = e + 1;
        }
        let end: usize = if e < code.len() {
            e + 1
        } else {
            e
        };
        proof {
            assert forall|k: int| 0 <= k < e - pos implies suffix[k] != NEWLINE by {
                assert(suffix[k] == sv[pos + k]);
            }
            assert(e - pos < suffix.len() ==> suffix[e - pos] == sv[e as int]);
            lemma_line_end_eq(suffix, e - pos);
            assert(line_end(suffix) == end - pos);
        }
        let mut ind: usize = pos;
        while ind < end && is_indent(code[ind])
            invariant
                pos <= ind <= end,
                end <= sv.len(),
                sv == code@,
                forall|k: int| pos <= k < ind ==> is_indent_byte(sv[k]),
            decreases end - ind,
        {
            ind = ind + 1;
        }
        let ghost line = suffix.subrange(0, end - pos);
        proof {
            assert(line =~= sv.subrange(pos as int, end as int));
            assert forall|k: int| 0 <= k < ind - pos implies is_indent_byte(line[k]) by {
                assert(line[k] == sv[pos + k]);
            }
            assert(ind - pos < line.len() ==> !is_indent_byte(line[ind - pos]));
            lemma_indent_len_eq(line, ind - pos);
        }
        let cut: usize = if first_indent < ind - pos {
            first_indent
        } else {
            ind - pos
        };
        let start: usize = pos + cut;
        let ghost out0 = out@;
        let mut i: usize = start;
        while i < end
            invariant
                start <= i <= end,
                end <= sv.len(),
                sv == code@,
                out@ == out0 + sv.subrange(start as int, i as int),
            decreases end - i,
        {
            out.push(code[i]);
            i = i + 1;
            assert(out@ =~= out0 + sv.subrange(start as int, i as int));
        }
        proof {
            assert(strip_spec(suffix, fi) == line.subrange(cut as int, line.len() as int)
                + strip_spec(suffix.subrange(end - pos, suffix.len() as int), fi));
            assert(line.subrange(cut as int, line.len() as int) =~= sv.subrange(
                start as int,
                end as int,
            ));
            assert(suffix.subrange(end - pos, suffix.len() as int) =~= sv.subrange(
                end as int,
                sv.len() as int,
            ));
            assert(out@ + strip_spec(sv.subrange(end as int, sv.len() as int), fi) =~= strip_spec(
                sv,
                fi,
            ));
        }
        pos = end;
    }
    proof {
        assert(out@ + strip_spec(sv.subrange(sv.len() as int, sv.len() as int), fi) =~= out@);
    }
    out
}

/// Prepares a code sample for display, the way the code view does:
/// leading line breaks are dropped, then the first remaining line's
/// indentation is removed from the start of every line.
pub fn prepare_code_sample(code: &Vec<u8>) -> (out: Vec<u8>)
    ensures
        out@ == strip_spec(
            trim_newlines_spec(code@),
            indent_len(trim_newlines_spec(code@)),
        ),
{
    let ghost sv = code@;
    let mut i: usize = 0;
    while i < code.len() && code[i] == NEWLINE
        invariant
            i <= sv.len(),
            sv == code@,
            forall|k: int| 0 <= k < i ==> sv[k] == NEWLINE,
        decreases sv.len() - i,
    {
        i = i + 1;
    }
    proof {
        lemma_trim_newlines_eq(sv, i as int);
    }
    let trimmed = crate::bytes::slice_range_to_vec(code.as_slice(), i, code.len());
    remove_leading_indentation(&trimmed)
}

} // verus!
