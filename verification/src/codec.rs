//! The snapshot format: one line per cache entry, holding the identifier
//! and the verdict's full state as fixed-width decimal numbers and
//! length-prefixed character runs. Decoding an encoded entry returns
//! exactly the encoded values; the round-trip lemmas prove it.

use vstd::prelude::*;

use crate::error::KindModel;
use crate::status::{kind_model_wf, status_model_wf, valid_code, StatusModel};
use crate::text::{
    all_digits, lemma_render_parse, lemma_render_shape, lemma_usize_fits_len_width, pow10,
    spec_parse_num, spec_render_num,
};

verus! {

/// The payload of a cause, flattened to one uniform record: a tag and
/// five fields, of which each variant uses a subset.
pub struct KindFields {
    pub tag: u16,
    pub a: Option<Seq<char>>,
    pub b: Seq<char>,
    pub c: Seq<char>,
    pub d: Option<u16>,
    pub e: usize,
}

/// The payload of a verdict, flattened: a tag, an optional code, and a
/// cause record (a placeholder one for tags that carry no cause).
pub struct StatusFields {
    pub tag: u16,
    pub oc: Option<u16>,
    pub kind: KindFields,
}

/// The placeholder cause record for verdicts that carry no cause.
pub open spec fn blank_kind_fields() -> KindFields {
    KindFields { tag: 17, a: None, b: Seq::empty(), c: Seq::empty(), d: None, e: 0 }
}

/// Flattens a cause model into its record.
pub open spec fn fields_of_kind(k: KindModel) -> KindFields {
    match k {
        KindModel::Io { path, category, message } => KindFields {
            tag: 1,
            a: path,
            b: message,
            c: Seq::empty(),
            d: Some(category.spec_code() as u16),
            e: 0,
        },
        KindModel::Encoding { message } => KindFields {
            tag: 2,
            a: None,
            b: message,
            c: Seq::empty(),
            d: None,
            e: 0,
        },
        KindModel::Client { err, status } => KindFields {
            tag: 3,
            a: None,
            b: err,
            c: Seq::empty(),
            d: status,
            e: 0,
        },
        KindModel::Github { message } => KindFields {
            tag: 4,
            a: None,
            b: message,
            c: Seq::empty(),
            d: None,
            e: 0,
        },
        KindModel::Parse { input, url_error, mail_error } => KindFields {
            tag: 5,
            a: mail_error,
            b: input,
            c: url_error,
            d: None,
            e: 0,
        },
        KindModel::UrlFromPath { path } => KindFields {
            tag: 6,
            a: None,
            b: path,
            c: Seq::empty(),
            d: None,
            e: 0,
        },
        KindModel::FileNotFound { path } => KindFields {
            tag: 7,
            a: None,
            b: path,
            c: Seq::empty(),
            d: None,
            e: 0,
        },
        KindModel::FileUriNotFound { uri } => KindFields {
            tag: 8,
            a: None,
            b: uri,
            c: Seq::empty(),
            d: None,
            e: 0,
        },
        KindModel::Mail { uri } => KindFields {
            tag: 9,
            a: None,
            b: uri,
            c: Seq::empty(),
            d: None,
            e: 0,
        },
        KindModel::Header { message } => KindFields {
            tag: 10,
            a: None,
            b: message,
            c: Seq::empty(),
            d: None,
            e: 0,
        },
        KindModel::Base { base, message } => KindFields {
            tag: 11,
            a: None,
            b: base,
            c: message,
            d: None,
            e: 0,
        },
        KindModel::DirTraversal { message } => KindFields {
            tag: 12,
            a: None,
            b: message,
            c: Seq::empty(),
            d: None,
            e: 0,
        },
        KindModel::Glob { position, message } => KindFields {
            tag: 13,
            a: None,
            b: message,
            c: Seq::empty(),
            d: None,
            e: position,
        },
        KindModel::MissingGitHubToken => KindFields {
            tag: 14,
            a: None,
            b: Seq::empty(),
            c: Seq::empty(),
            d: None,
            e: 0,
        },
        KindModel::InsecureURL { uri } => KindFields {
            tag: 15,
            a: None,
            b: uri,
            c: Seq::empty(),
            d: None,
            e: 0,
        },
        KindModel::Channel { message } => KindFields {
            tag: 16,
            a: None,
            b: message,
            c: Seq::empty(),
            d: None,
            e: 0,
        },
        KindModel::MissingHost => blank_kind_fields(),
        KindModel::InvalidURI { uri } => KindFields {
            tag: 18,
            a: None,
            b: uri,
            c: Seq::empty(),
            d: None,
            e: 0,
        },
    }
}

/// Rebuilds a cause model from its record; `None` if the record fits no
/// variant.
pub open spec fn kind_of_fields(f: KindFields) -> Option<KindModel> {
    if f.tag == 1 {
        match f.d {
            Some(code) => match crate::error::IoCategory::spec_from_code(code as nat) {
                Some(category) => Some(
                    KindModel::Io { path: f.a, category, message: f.b },
                ),
                None => None,
            },
            None => None,
        }
    } else if f.tag == 2 {
        Some(KindModel::Encoding { message: f.b })
    } else if f.tag == 3 {
        match f.d {
            Some(code) => if valid_code(code) {
                Some(KindModel::Client { err: f.b, status: Some(code) })
            } else {
                None
            },
            None => Some(KindModel::Client { err: f.b, status: None }),
        }
    } else if f.tag == 4 {
        Some(KindModel::Github { message: f.b })
    } else if f.tag == 5 {
        Some(KindModel::Parse { input: f.b, url_error: f.c, mail_error: f.a })
    } else if f.tag == 6 {
        Some(KindModel::UrlFromPath { path: f.b })
    } else if f.tag == 7 {
        Some(KindModel::FileNotFound { path: f.b })
    } else if f.tag == 8 {
        Some(KindModel::FileUriNotFound { uri: f.b })
    } else if f.tag == 9 {
        Some(KindModel::Mail { uri: f.b })
    } else if f.tag == 10 {
        Some(KindModel::Header { message: f.b })
    } else if f.tag == 11 {
        Some(KindModel::Base { base: f.b, message: f.c })
    } else if f.tag == 12 {
        Some(KindModel::DirTraversal { message: f.b })
    } else if f.tag == 13 {
        Some(KindModel::Glob { position: f.e, message: f.b })
    } else if f.tag == 14 {
        Some(KindModel::MissingGitHubToken)
    } else if f.tag == 15 {
        Some(KindModel::InsecureURL { uri: f.b })
    } else if f.tag == 16 {
        Some(KindModel::Channel { message: f.b })
    } else if f.tag == 17 {
        Some(KindModel::MissingHost)
    } else if f.tag == 18 {
        Some(KindModel::InvalidURI { uri: f.b })
    } else {
        None
    }
}

/// Flattening a valid cause and rebuilding it gives the cause back.
pub proof fn lemma_kind_fields_round_trip(k: KindModel)
    requires
        kind_model_wf(k),
    ensures
        kind_of_fields(fields_of_kind(k)) == Some(k),
{
    match k {
        KindModel::Io { category, .. } => category.lemma_code_round_trip(),
        _ => {},
    }
}

/// Flattens a verdict model into its record.
pub open spec fn fields_of_status(s: StatusModel) -> StatusFields {
    match s {
        StatusModel::Success(c) => StatusFields { tag: 1, oc: Some(c), kind: blank_kind_fields() },
        StatusModel::Error(k) => StatusFields { tag: 2, oc: None, kind: fields_of_kind(k) },
        StatusModel::Timeout(oc) => StatusFields { tag: 3, oc, kind: blank_kind_fields() },
        StatusModel::Redirected(c) => StatusFields {
            tag: 4,
            oc: Some(c),
            kind: blank_kind_fields(),
        },
        StatusModel::UnknownStatusCode(c) => StatusFields {
            tag: 5,
            oc: Some(c),
            kind: blank_kind_fields(),
        },
        StatusModel::Excluded => StatusFields { tag: 6, oc: None, kind: blank_kind_fields() },
        StatusModel::Unsupported(k) => StatusFields { tag: 7, oc: None, kind: fields_of_kind(k) },
    }
}

/// Rebuilds a verdict model from its record; `None` if the record fits
/// no variant.
pub open spec fn status_of_fields(g: StatusFields) -> Option<StatusModel> {
    if g.tag == 1 {
        match g.oc {
            Some(c) => if valid_code(c) {
                Some(StatusModel::Success(c))
            } else {
                None
            },
            None => None,
        }
    } else if g.tag == 2 {
        match kind_of_fields(g.kind) {
            Some(k) => Some(StatusModel::Error(k)),
            None => None,
        }
    } else if g.tag == 3 {
        match g.oc {
            Some(c) => if valid_code(c) {
                Some(StatusModel::Timeout(Some(c)))
            } else {
                None
            },
            None => Some(StatusModel::Timeout(None)),
        }
    } else if g.tag == 4 {
        match g.oc {
            Some(c) => if valid_code(c) {
                Some(StatusModel::Redirected(c))
            } else {
                None
            },
            None => None,
        }
    } else if g.tag == 5 {
        match g.oc {
            Some(c) => if valid_code(c) {
                Some(StatusModel::UnknownStatusCode(c))
            } else {
                None
            },
            None => None,
        }
    } else if g.tag == 6 {
        Some(StatusModel::Excluded)
    } else if g.tag == 7 {
        match kind_of_fields(g.kind) {
            Some(k) => Some(StatusModel::Unsupported(k)),
            None => None,
        }
    } else {
        None
    }
}

/// Flattening a valid verdict and rebuilding it gives the verdict back.
pub proof fn lemma_status_fields_round_trip(s: StatusModel)
    requires
        status_model_wf(s),
    ensures
        status_of_fields(fields_of_status(s)) == Some(s),
{
    match s {
        StatusModel::Error(k) => lemma_kind_fields_round_trip(k),
        StatusModel::Unsupported(k) => lemma_kind_fields_round_trip(k),
        _ => {},
    }
}

/// Width of a `u16` token.
pub const NUM_WIDTH: usize = 5;

// Token encoders.
pub open spec fn enc_num5(n: u16) -> Seq<char> {
    spec_render_num(n as nat, NUM_WIDTH as nat)
}

pub open spec fn enc_num20(n: usize) -> Seq<char> {
    spec_render_num(n as nat, crate::text::LEN_WIDTH as nat)
}

pub open spec fn enc_str(s: Seq<char>) -> Seq<char> {
    enc_num20(s.len() as usize) + s
}

pub open spec fn enc_opt_str(o: Option<Seq<char>>) -> Seq<char> {
    match o {
        None => seq!['-'],
        Some(s) => seq!['+'] + enc_str(s),
    }
}

pub open spec fn enc_opt_num5(o: Option<u16>) -> Seq<char> {
    match o {
        None => seq!['-'],
        Some(n) => seq!['+'] + enc_num5(n),
    }
}

pub open spec fn enc_kind_fields(f: KindFields) -> Seq<char> {
    enc_num5(f.tag) + enc_opt_str(f.a) + enc_str(f.b) + enc_str(f.c) + enc_opt_num5(f.d)
        + enc_num20(f.e)
}

pub open spec fn enc_status_fields(g: StatusFields) -> Seq<char> {
    enc_num5(g.tag) + enc_opt_num5(g.oc) + enc_kind_fields(g.kind)
}

/// One snapshot line: the identifier, the verdict record, a line break.
pub open spec fn spec_encode_entry(id: Seq<char>, s: StatusModel) -> Seq<char> {
    enc_str(id) + enc_status_fields(fields_of_status(s)) + seq!['\n']
}

/// The whole snapshot: the entries' lines, in order.
pub open spec fn spec_encode_snapshot(pairs: Seq<(Seq<char>, StatusModel)>) -> Seq<char>
    decreases pairs.len(),
{
    if pairs.len() == 0 {
        Seq::empty()
    } else {
        spec_encode_entry(pairs.first().0, pairs.first().1) + spec_encode_snapshot(
            pairs.drop_first(),
        )
    }
}

/// Appending one entry to a list appends its line to the snapshot.
pub proof fn lemma_encode_snapshot_push(
    pairs: Seq<(Seq<char>, StatusModel)>,
    x: (Seq<char>, StatusModel),
)
    ensures
        spec_encode_snapshot(pairs.push(x)) == spec_encode_snapshot(pairs) + spec_encode_entry(
            x.0,
            x.1,
        ),
    decreases pairs.len(),
{
    if pairs.len() == 0 {
        assert(pairs.push(x).drop_first() =~= Seq::<(Seq<char>, StatusModel)>::empty());
        assert(pairs.push(x).first() == x);
        assert(spec_encode_snapshot(Seq::<(Seq<char>, StatusModel)>::empty())
            == Seq::<char>::empty());
        assert(spec_encode_snapshot(pairs.push(x)) == spec_encode_entry(x.0, x.1)
            + Seq::<char>::empty());
        assert(spec_encode_snapshot(pairs) == Seq::<char>::empty());
        assert(spec_encode_snapshot(pairs.push(x)) =~= spec_encode_snapshot(pairs)
            + spec_encode_entry(x.0, x.1));
    } else {
        assert(pairs.push(x).first() == pairs.first());
        assert(pairs.push(x).drop_first() =~= pairs.drop_first().push(x));
        lemma_encode_snapshot_push(pairs.drop_first(), x);
        assert(spec_encode_snapshot(pairs.push(x)) =~= spec_encode_snapshot(pairs)
            + spec_encode_entry(x.0, x.1));
    }
}

// Token decoders, each returning the value and the position after it.
pub open spec fn dec_num5(s: Seq<char>, pos: int) -> Option<(u16, int)> {
    if 0 <= pos && pos + NUM_WIDTH <= s.len() {
        let w = s.subrange(pos, pos + NUM_WIDTH);
        if all_digits(w) && spec_parse_num(w) <= u16::MAX {
            Some((spec_parse_num(w) as u16, pos + NUM_WIDTH))
        } else {
            None
        }
    } else {
        None
    }
}

pub open spec fn dec_num20(s: Seq<char>, pos: int) -> Option<(usize, int)> {
    if 0 <= pos && pos + crate::text::LEN_WIDTH <= s.len() {
        let w = s.subrange(pos, pos + crate::text::LEN_WIDTH);
        if all_digits(w) && spec_parse_num(w) <= usize::MAX {
            Some((spec_parse_num(w) as usize, pos + crate::text::LEN_WIDTH))
        } else {
            None
        }
    } else {
        None
    }
}

pub open spec fn dec_str(s: Seq<char>, pos: int) -> Option<(Seq<char>, int)> {
    match dec_num20(s, pos) {
        Some((n, p)) => if p + n <= s.len() {
            Some((s.subrange(p, p + n), p + n))
        } else {
            None
        },
        None => None,
    }
}

pub open spec fn dec_opt_str(s: Seq<char>, pos: int) -> Option<(Option<Seq<char>>, int)> {
    if 0 <= pos && pos < s.len() {
        if s[pos] == '-' {
            Some((None, pos + 1))
        } else if s[pos] == '+' {
            match dec_str(s, pos + 1) {
                Some((v, p)) => Some((Some(v), p)),
                None => None,
            }
        } else {
            None
        }
    } else {
        None
    }
}

pub open spec fn dec_opt_num5(s: Seq<char>, pos: int) -> Option<(Option<u16>, int)> {
    if 0 <= pos && pos < s.len() {
        if s[pos] == '-' {
            Some((None, pos + 1))
        } else if s[pos] == '+' {
            match dec_num5(s, pos + 1) {
                Some((v, p)) => Some((Some(v), p)),
                None => None,
            }
        } else {
            None
        }
    } else {
        None
    }
}

pub open spec fn dec_kind_fields(s: Seq<char>, pos: int) -> Option<(KindFields, int)> {
    match dec_num5(s, pos) {
        Some((tag, p1)) => match dec_opt_str(s, p1) {
            Some((a, p2)) => match dec_str(s, p2) {
                Some((b, p3)) => match dec_str(s, p3) {
                    Some((c, p4)) => match dec_opt_num5(s, p4) {
                        Some((d, p5)) => match dec_num20(s, p5) {
                            Some((e, p6)) => Some((KindFields { tag, a, b, c, d, e }, p6)),
                            None => None,
                        },
                        None => None,
                    },
                    None => None,
                },
                None => None,
            },
            None => None,
        },
        None => None,
    }
}

pub open spec fn dec_status_fields(s: Seq<char>, pos: int) -> Option<(StatusFields, int)> {
    match dec_num5(s, pos) {
        Some((tag, p1)) => match dec_opt_num5(s, p1) {
            Some((oc, p2)) => match dec_kind_fields(s, p2) {
                Some((kind, p3)) => Some((StatusFields { tag, oc, kind }, p3)),
                None => None,
            },
            None => None,
        },
        None => None,
    }
}

/// Decodes one snapshot line: the identifier, the verdict, the line break.
pub open spec fn spec_decode_entry(s: Seq<char>, pos: int) -> Option<((Seq<char>, StatusModel), int)> {
    match dec_str(s, pos) {
        Some((id, p1)) => match dec_status_fields(s, p1) {
            Some((g, p2)) => match status_of_fields(g) {
                Some(st) => if p2 < s.len() && s[p2] == '\n' {
                    Some(((id, st), p2 + 1))
                } else {
                    None
                },
                None => None,
            },
            None => None,
        },
        None => None,
    }
}

/// Everything a snapshot line advances past stays inside the text.
pub proof fn lemma_decode_entry_advances(s: Seq<char>, pos: int)
    requires
        spec_decode_entry(s, pos) is Some,
    ensures
        pos < (spec_decode_entry(s, pos)->0).1 <= s.len(),
{
}

/// The entries of a snapshot text, start to end; `None` on any malformed
/// text.
pub open spec fn spec_decode_snapshot(s: Seq<char>, pos: int) -> Option<
    Seq<(Seq<char>, StatusModel)>,
>
    decreases s.len() - pos,
    when 0 <= pos <= s.len()
    via spec_decode_snapshot_dec
{
    if pos == s.len() {
        Some(Seq::empty())
    } else {
        match spec_decode_entry(s, pos) {
            Some((pair, p)) => match spec_decode_snapshot(s, p) {
                Some(rest) => Some(seq![pair] + rest),
                None => None,
            },
            None => None,
        }
    }
}

#[via_fn]
proof fn spec_decode_snapshot_dec(s: Seq<char>, pos: int) {
    if pos != s.len() {
        if spec_decode_entry(s, pos) is Some {
            lemma_decode_entry_advances(s, pos);
        }
    }
}

/// A run of two pieces standing at `pos` splits into the pieces.
pub proof fn lemma_segment(s: Seq<char>, pos: int, a: Seq<char>, b: Seq<char>)
    requires
        0 <= pos,
        pos + a.len() + b.len() <= s.len(),
        s.subrange(pos, pos + a.len() + b.len()) == a + b,
    ensures
        s.subrange(pos, pos + a.len()) == a,
        s.subrange(pos + a.len(), pos + a.len() + b.len()) == b,
{
    let whole = s.subrange(pos, pos + a.len() + b.len());
    assert forall|i: int| 0 <= i < a.len() implies s.subrange(pos, pos + a.len())[i] == a[i] by {
        assert(whole[i] == (a + b)[i]);
    }
    assert forall|i: int| 0 <= i < b.len() implies s.subrange(
        pos + a.len(),
        pos + a.len() + b.len(),
    )[i] == b[i] by {
        assert(whole[a.len() + i] == (a + b)[a.len() + i]);
    }
    assert(s.subrange(pos, pos + a.len()) =~= a);
    assert(s.subrange(pos + a.len(), pos + a.len() + b.len()) =~= b);
}

pub proof fn lemma_pow10_num_width()
    ensures
        pow10(NUM_WIDTH as nat) == 100000,
{
    reveal_with_fuel(pow10, 6);
}

/// A `u16` token decodes to the encoded value.
pub proof fn lemma_rt_num5(s: Seq<char>, pos: int, n: u16)
    requires
        0 <= pos,
        pos + NUM_WIDTH <= s.len(),
        s.subrange(pos, pos + NUM_WIDTH) == enc_num5(n),
    ensures
        dec_num5(s, pos) == Some((n, pos + NUM_WIDTH)),
{
    lemma_render_shape(n as nat, NUM_WIDTH as nat);
    lemma_pow10_num_width();
    lemma_render_parse(n as nat, NUM_WIDTH as nat);
}

/// A `usize` token decodes to the encoded value.
pub proof fn lemma_rt_num20(s: Seq<char>, pos: int, n: usize)
    requires
        0 <= pos,
        pos + crate::text::LEN_WIDTH <= s.len(),
        s.subrange(pos, pos + crate::text::LEN_WIDTH) == enc_num20(n),
    ensures
        dec_num20(s, pos) == Some((n, pos + crate::text::LEN_WIDTH)),
{
    lemma_render_shape(n as nat, crate::text::LEN_WIDTH as nat);
    lemma_usize_fits_len_width();
    lemma_render_parse(n as nat, crate::text::LEN_WIDTH as nat);
}

/// A string token decodes to the encoded characters.
pub proof fn lemma_rt_str(s: Seq<char>, pos: int, x: Seq<char>)
    requires
        0 <= pos,
        x.len() <= usize::MAX,
        pos + enc_str(x).len() <= s.len(),
        s.subrange(pos, pos + enc_str(x).len()) == enc_str(x),
    ensures
        dec_str(s, pos) == Some((x, pos + enc_str(x).len())),
{
    let lenfield = enc_num20(x.len() as usize);
    lemma_render_shape(x.len(), crate::text::LEN_WIDTH as nat);
    lemma_segment(s, pos, lenfield, x);
    lemma_rt_num20(s, pos, x.len() as usize);
}

/// An optional string token decodes to the encoded value.
pub proof fn lemma_rt_opt_str(s: Seq<char>, pos: int, o: Option<Seq<char>>)
    requires
        0 <= pos,
        (o matches Some(x) ==> x.len() <= usize::MAX),
        pos + enc_opt_str(o).len() <= s.len(),
        s.subrange(pos, pos + enc_opt_str(o).len()) == enc_opt_str(o),
    ensures
        dec_opt_str(s, pos) == Some((o, pos + enc_opt_str(o).len())),
{
    match o {
        None => {
            assert(s[pos] == enc_opt_str(o)[0]);
        },
        Some(x) => {
            lemma_segment(s, pos, seq!['+'], enc_str(x));
            assert(s[pos] == seq!['+'][0]);
            lemma_rt_str(s, pos + 1, x);
        },
    }
}

/// An optional `u16` token decodes to the encoded value.
pub proof fn lemma_rt_opt_num5(s: Seq<char>, pos: int, o: Option<u16>)
    requires
        0 <= pos,
        pos + enc_opt_num5(o).len() <= s.len(),
        s.subrange(pos, pos + enc_opt_num5(o).len()) == enc_opt_num5(o),
    ensures
        dec_opt_num5(s, pos) == Some((o, pos + enc_opt_num5(o).len())),
{
    match o {
        None => {
            assert(s[pos] == enc_opt_num5(o)[0]);
        },
        Some(n) => {
            lemma_render_shape(n as nat, NUM_WIDTH as nat);
            lemma_segment(s, pos, seq!['+'], enc_num5(n));
            assert(s[pos] == seq!['+'][0]);
            lemma_rt_num5(s, pos + 1, n);
        },
    }
}

/// Whether a cause record's strings are real string lengths.
pub open spec fn kind_fields_bounded(f: KindFields) -> bool {
    &&& (f.a matches Some(x) ==> x.len() <= usize::MAX)
    &&& f.b.len() <= usize::MAX
    &&& f.c.len() <= usize::MAX
}

/// A cause record decodes to the encoded record.
pub proof fn lemma_rt_kind_fields(s: Seq<char>, pos: int, f: KindFields)
    requires
        0 <= pos,
        kind_fields_bounded(f),
        pos + enc_kind_fields(f).len() <= s.len(),
        s.subrange(pos, pos + enc_kind_fields(f).len()) == enc_kind_fields(f),
    ensures
        dec_kind_fields(s, pos) == Some((f, pos + enc_kind_fields(f).len())),
{
    let t1 = enc_num5(f.tag);
    let t2 = enc_opt_str(f.a);
    let t3 = enc_str(f.b);
    let t4 = enc_str(f.c);
    let t5 = enc_opt_num5(f.d);
    let t6 = enc_num20(f.e);
    lemma_render_shape(f.tag as nat, NUM_WIDTH as nat);
    lemma_render_shape(f.e as nat, crate::text::LEN_WIDTH as nat);
    assert(enc_kind_fields(f) =~= t1 + (t2 + (t3 + (t4 + (t5 + t6)))));
    lemma_segment(s, pos, t1, t2 + (t3 + (t4 + (t5 + t6))));
    lemma_rt_num5(s, pos, f.tag);
    let p1 = pos + t1.len();
    lemma_segment(s, p1, t2, t3 + (t4 + (t5 + t6)));
    lemma_rt_opt_str(s, p1, f.a);
    let p2 = p1 + t2.len();
    lemma_segment(s, p2, t3, t4 + (t5 + t6));
    lemma_rt_str(s, p2, f.b);
    let p3 = p2 + t3.len();
    lemma_segment(s, p3, t4, t5 + t6);
    lemma_rt_str(s, p3, f.c);
    let p4 = p3 + t4.len();
    lemma_segment(s, p4, t5, t6);
    lemma_rt_opt_num5(s, p4, f.d);
    let p5 = p4 + t5.len();
    lemma_rt_num20(s, p5, f.e);
}

/// A verdict record decodes to the encoded record.
pub proof fn lemma_rt_status_fields(s: Seq<char>, pos: int, g: StatusFields)
    requires
        0 <= pos,
        kind_fields_bounded(g.kind),
        pos + enc_status_fields(g).len() <= s.len(),
        s.subrange(pos, pos + enc_status_fields(g).len()) == enc_status_fields(g),
    ensures
        dec_status_fields(s, pos) == Some((g, pos + enc_status_fields(g).len())),
{
    let t1 = enc_num5(g.tag);
    let t2 = enc_opt_num5(g.oc);
    let t3 = enc_kind_fields(g.kind);
    lemma_render_shape(g.tag as nat, NUM_WIDTH as nat);
    assert(enc_status_fields(g) =~= t1 + (t2 + t3));
    lemma_segment(s, pos, t1, t2 + t3);
    lemma_rt_num5(s, pos, g.tag);
    let p1 = pos + t1.len();
    lemma_segment(s, p1, t2, t3);
    lemma_rt_opt_num5(s, p1, g.oc);
    let p2 = p1 + t2.len();
    lemma_rt_kind_fields(s, p2, g.kind);
}

/// Whether a verdict model's strings are real string lengths.
pub open spec fn status_model_bounded(st: StatusModel) -> bool {
    kind_fields_bounded(fields_of_status(st).kind)
}

/// A snapshot line decodes to the encoded identifier and verdict.
pub proof fn lemma_rt_entry(s: Seq<char>, pos: int, id: Seq<char>, st: StatusModel)
    requires
        0 <= pos,
        id.len() <= usize::MAX,
        status_model_wf(st),
        status_model_bounded(st),
        pos + spec_encode_entry(id, st).len() <= s.len(),
        s.subrange(pos, pos + spec_encode_entry(id, st).len()) == spec_encode_entry(id, st),
    ensures
        spec_decode_entry(s, pos) == Some(((id, st), pos + spec_encode_entry(id, st).len())),
{
    let t1 = enc_str(id);
    let t2 = enc_status_fields(fields_of_status(st));
    let t3 = seq!['\n'];
    lemma_render_shape(id.len(), crate::text::LEN_WIDTH as nat);
    assert(spec_encode_entry(id, st) =~= t1 + (t2 + t3));
    lemma_segment(s, pos, t1, t2 + t3);
    lemma_rt_str(s, pos, id);
    let p1 = pos + t1.len();
    lemma_segment(s, p1, t2, t3);
    lemma_rt_status_fields(s, p1, fields_of_status(st));
    lemma_status_fields_round_trip(st);
    let p2 = p1 + t2.len();
    assert(s[p2] == t3[0]);
}

/// Whether every entry of a pair list can stand in a snapshot: real
/// string lengths and valid verdicts.
pub open spec fn pairs_ok(pairs: Seq<(Seq<char>, StatusModel)>) -> bool {
    forall|i: int|
        0 <= i < pairs.len() ==> {
            &&& (#[trigger] pairs[i]).0.len() <= usize::MAX
            &&& status_model_wf(pairs[i].1)
            &&& status_model_bounded(pairs[i].1)
        }
}

#[verifier::rlimit(100)]
#[verifier::spinoff_prover]
proof fn lemma_rt_snapshot_at(s: Seq<char>, pos: int, pairs: Seq<(Seq<char>, StatusModel)>)
    requires
        0 <= pos,
        pairs_ok(pairs),
        pos + spec_encode_snapshot(pairs).len() == s.len(),
        s.subrange(pos, s.len() as int) == spec_encode_snapshot(pairs),
    ensures
        spec_decode_snapshot(s, pos) == Some(pairs),
    decreases pairs.len(),
{
    if pairs.len() == 0 {
        assert(pos == s.len());
    } else {
        let id = pairs.first().0;
        let st = pairs.first().1;
        let e = spec_encode_entry(id, st);
        let rest = spec_encode_snapshot(pairs.drop_first());
        assert(s.subrange(pos, pos + e.len() + rest.len()) == e + rest);
        lemma_segment(s, pos, e, rest);
        lemma_rt_entry(s, pos, id, st);
        let p = pos + e.len();
        assert(pairs_ok(pairs.drop_first())) by {
            assert forall|i: int| 0 <= i < pairs.drop_first().len() implies {
                &&& (#[trigger] pairs.drop_first()[i]).0.len() <= usize::MAX
                &&& status_model_wf(pairs.drop_first()[i].1)
                &&& status_model_bounded(pairs.drop_first()[i].1)
            } by {
                assert(pairs.drop_first()[i] == pairs[i + 1]);
            }
        }
        assert(s.subrange(p, s.len() as int) =~= rest);
        lemma_rt_snapshot_at(s, p, pairs.drop_first());
        assert(e.len() > 0);
        assert(pos < s.len());
        assert(seq![pairs.first()] + pairs.drop_first() =~= pairs);
    }
}

/// Decoding an encoded snapshot returns exactly the encoded entries: the
/// persistence format loses nothing.
pub proof fn lemma_snapshot_round_trip(pairs: Seq<(Seq<char>, StatusModel)>)
    requires
        pairs_ok(pairs),
    ensures
        spec_decode_snapshot(spec_encode_snapshot(pairs), 0) == Some(pairs),
{
    let s = spec_encode_snapshot(pairs);
    assert(s.subrange(0, s.len() as int) =~= s);
    lemma_rt_snapshot_at(s, 0, pairs);
}

/// The mapping a list of entries stands for: later entries overwrite
/// earlier ones with the same identifier.
pub open spec fn pairs_to_map(pairs: Seq<(Seq<char>, StatusModel)>) -> Map<
    Seq<char>,
    StatusModel,
>
    decreases pairs.len(),
{
    if pairs.len() == 0 {
        Map::empty()
    } else {
        pairs_to_map(pairs.drop_last()).insert(pairs.last().0, pairs.last().1)
    }
}

/// A list whose entries all lie in a mapping, with no repeated
/// identifier, and which reaches every identifier of the mapping, stands
/// for exactly that mapping.
pub proof fn lemma_pairs_to_map_of_cover(
    pairs: Seq<(Seq<char>, StatusModel)>,
    m: Map<Seq<char>, StatusModel>,
)
    requires
        forall|i: int|
            0 <= i < pairs.len() ==> m.contains_pair(
                (#[trigger] pairs[i]).0,
                pairs[i].1,
            ),
        forall|i: int, j: int|
            0 <= i < j < pairs.len() ==> (#[trigger] pairs[i]).0 != (#[trigger] pairs[j]).0,
        forall|k: Seq<char>|
            m.dom().contains(k) ==> exists|i: int|
                0 <= i < pairs.len() && (#[trigger] pairs[i]).0 == k,
    ensures
        pairs_to_map(pairs) =~~= m,
    decreases pairs.len(),
{
    if pairs.len() == 0 {
        assert forall|k: Seq<char>| !m.dom().contains(k) by {
            if m.dom().contains(k) {
                let i = choose|i: int| 0 <= i < pairs.len() && (#[trigger] pairs[i]).0 == k;
            }
        }
        assert(pairs_to_map(pairs) =~~= m);
    } else {
        let p = pairs.drop_last();
        let k0 = pairs.last().0;
        let v0 = pairs.last().1;
        let m0 = m.remove(k0);
        assert forall|i: int|
            0 <= i < p.len() implies m0.contains_pair((#[trigger] p[i]).0, p[i].1) by {
            assert(p[i] == pairs[i]);
            assert(pairs[i].0 != k0);
        }
        assert forall|k: Seq<char>|
            m0.dom().contains(k) implies exists|i: int|
                0 <= i < p.len() && (#[trigger] p[i]).0 == k by {
            let i = choose|i: int| 0 <= i < pairs.len() && (#[trigger] pairs[i]).0 == k;
            assert(i < pairs.len() - 1);
            assert(p[i] == pairs[i]);
        }
        lemma_pairs_to_map_of_cover(p, m0);
        assert(m.contains_pair(k0, v0));
        assert(pairs_to_map(pairs) =~~= m);
    }
}

/// An empty string slice.
fn empty_str() -> (r: &'static str)
    ensures
        r@ == Seq::<char>::empty(),
{
    proof {
        reveal_strlit("");
        assert(""@ =~= Seq::<char>::empty());
    }
    ""
}

/// The view of an optional string slice.
pub open spec fn opt_slice_view(o: Option<&str>) -> Option<Seq<char>> {
    match o {
        Some(s) => Some(s@),
        None => None,
    }
}

fn push_num5(out: &mut Vec<char>, n: u16)
    ensures
        final(out)@ == old(out)@ + enc_num5(n),
{
    crate::text::push_num(out, n as u128, NUM_WIDTH);
}

fn push_num20(out: &mut Vec<char>, n: usize)
    ensures
        final(out)@ == old(out)@ + enc_num20(n),
{
    crate::text::push_num(out, n as u128, crate::text::LEN_WIDTH);
}

fn push_str_token(out: &mut Vec<char>, s: &str)
    ensures
        final(out)@ == old(out)@ + enc_str(s@),
        s@.len() <= usize::MAX,
{
    let cs = crate::text::chars_of(s);
    push_num20(out, cs.len());
    crate::text::push_chars(out, s);
    proof {
        assert(out@ =~= old(out)@ + enc_str(s@));
    }
}

fn push_opt_str_token(out: &mut Vec<char>, o: Option<&str>)
    ensures
        final(out)@ == old(out)@ + enc_opt_str(opt_slice_view(o)),
        (opt_slice_view(o) matches Some(x) ==> x.len() <= usize::MAX),
{
    match o {
        Option::None => {
            out.push('-');
            proof {
                assert(out@ =~= old(out)@ + enc_opt_str(opt_slice_view(o)));
            }
        },
        Option::Some(s) => {
            out.push('+');
            push_str_token(out, s);
            proof {
                assert(out@ =~= old(out)@ + enc_opt_str(opt_slice_view(o)));
            }
        },
    }
}

fn push_opt_num5(out: &mut Vec<char>, o: &Option<u16>)
    ensures
        final(out)@ == old(out)@ + enc_opt_num5(*o),
{
    match o {
        Option::None => {
            out.push('-');
            proof {
                assert(out@ =~= old(out)@ + enc_opt_num5(*o));
            }
        },
        Option::Some(n) => {
            out.push('+');
            push_num5(out, *n);
            proof {
                assert(out@ =~= old(out)@ + enc_opt_num5(*o));
            }
        },
    }
}

/// Appends one cause record, given its parts.
fn push_record(
    out: &mut Vec<char>,
    tag: u16,
    a: Option<&str>,
    b: &str,
    c: &str,
    d: &Option<u16>,
    e: usize,
)
    ensures
        ({
            let f = KindFields {
                tag,
                a: opt_slice_view(a),
                b: b@,
                c: c@,
                d: *d,
                e,
            };
            &&& final(out)@ == old(out)@ + enc_kind_fields(f)
            &&& kind_fields_bounded(f)
        }),
{
    push_num5(out, tag);
    push_opt_str_token(out, a);
    push_str_token(out, b);
    push_str_token(out, c);
    push_opt_num5(out, d);
    push_num20(out, e);
    proof {
        let f = KindFields { tag, a: opt_slice_view(a), b: b@, c: c@, d: *d, e };
        assert(out@ =~= old(out)@ + enc_kind_fields(f));
    }
}

/// Appends the record of a cause.
fn push_kind_record(out: &mut Vec<char>, k: &crate::error::ErrorKind)
    ensures
        final(out)@ == old(out)@ + enc_kind_fields(fields_of_kind(k@)),
        kind_fields_bounded(fields_of_kind(k@)),
{
    let e0 = empty_str();
    match k {
        crate::error::ErrorKind::Io { path, category, message } => {
            let a = match path {
                Option::Some(p) => Option::Some(p.as_str()),
                Option::None => Option::None,
            };
            let d = Some(category.code());
            push_record(out, 1, a, message.as_str(), e0, &d, 0);
        },
        crate::error::ErrorKind::Encoding { message } => {
            push_record(out, 2, Option::None, message.as_str(), e0, &Option::None, 0);
        },
        crate::error::ErrorKind::Client { err, status } => {
            push_record(out, 3, Option::None, err.as_str(), e0, status, 0);
        },
        crate::error::ErrorKind::Github { message } => {
            push_record(out, 4, Option::None, message.as_str(), e0, &Option::None, 0);
        },
        crate::error::ErrorKind::Parse { input, url_error, mail_error } => {
            let a = match mail_error {
                Option::Some(m) => Option::Some(m.as_str()),
                Option::None => Option::None,
            };
            push_record(out, 5, a, input.as_str(), url_error.as_str(), &Option::None, 0);
        },
        crate::error::ErrorKind::UrlFromPath { path } => {
            push_record(out, 6, Option::None, path.as_str(), e0, &Option::None, 0);
        },
        crate::error::ErrorKind::FileNotFound { path } => {
            push_record(out, 7, Option::None, path.as_str(), e0, &Option::None, 0);
        },
        crate::error::ErrorKind::FileUriNotFound { uri } => {
            push_record(out, 8, Option::None, uri.as_str(), e0, &Option::None, 0);
        },
        crate::error::ErrorKind::Mail { uri } => {
            push_record(out, 9, Option::None, uri.as_str(), e0, &Option::None, 0);
        },
        crate::error::ErrorKind::Header { message } => {
            push_record(out, 10, Option::None, message.as_str(), e0, &Option::None, 0);
        },
        crate::error::ErrorKind::Base { base, message } => {
            push_record(out, 11, Option::None, base.as_str(), message.as_str(), &Option::None, 0);
        },
        crate::error::ErrorKind::DirTraversal { message } => {
            push_record(out, 12, Option::None, message.as_str(), e0, &Option::None, 0);
        },
        crate::error::ErrorKind::Glob { position, message } => {
            push_record(out, 13, Option::None, message.as_str(), e0, &Option::None, *position);
        },
        crate::error::ErrorKind::MissingGitHubToken => {
            push_record(out, 14, Option::None, e0, e0, &Option::None, 0);
        },
        crate::error::ErrorKind::InsecureURL { uri } => {
            push_record(out, 15, Option::None, uri.as_str(), e0, &Option::None, 0);
        },
        crate::error::ErrorKind::Channel { message } => {
            push_record(out, 16, Option::None, message.as_str(), e0, &Option::None, 0);
        },
        crate::error::ErrorKind::MissingHost => {
            push_record(out, 17, Option::None, e0, e0, &Option::None, 0);
        },
        crate::error::ErrorKind::InvalidURI { uri } => {
            push_record(out, 18, Option::None, uri.as_str(), e0, &Option::None, 0);
        },
    }
}

/// Appends the record of a verdict.
fn push_status_record(out: &mut Vec<char>, st: &crate::status::Status)
    ensures
        final(out)@ == old(out)@ + enc_status_fields(fields_of_status(st@)),
        kind_fields_bounded(fields_of_status(st@).kind),
{
    let e0 = empty_str();
    match st {
        crate::status::Status::Success(c) => {
            push_num5(out, 1);
            let oc = Some(*c);
            push_opt_num5(out, &oc);
            push_record(out, 17, Option::None, e0, e0, &Option::None, 0);
        },
        crate::status::Status::Error(k) => {
            push_num5(out, 2);
            push_opt_num5(out, &Option::None);
            push_kind_record(out, k);
        },
        crate::status::Status::Timeout(oc) => {
            push_num5(out, 3);
            push_opt_num5(out, oc);
            push_record(out, 17, Option::None, e0, e0, &Option::None, 0);
        },
        crate::status::Status::Redirected(c) => {
            push_num5(out, 4);
            let oc = Some(*c);
            push_opt_num5(out, &oc);
            push_record(out, 17, Option::None, e0, e0, &Option::None, 0);
        },
        crate::status::Status::UnknownStatusCode(c) => {
            push_num5(out, 5);
            let oc = Some(*c);
            push_opt_num5(out, &oc);
            push_record(out, 17, Option::None, e0, e0, &Option::None, 0);
        },
        crate::status::Status::Excluded => {
            push_num5(out, 6);
            push_opt_num5(out, &Option::None);
            push_record(out, 17, Option::None, e0, e0, &Option::None, 0);
        },
        crate::status::Status::Unsupported(k) => {
            push_num5(out, 7);
            push_opt_num5(out, &Option::None);
            push_kind_record(out, k);
        },
    }
    proof {
        assert(out@ =~= old(out)@ + enc_status_fields(fields_of_status(st@)));
    }
}

/// Appends one snapshot line.
pub fn push_entry(out: &mut Vec<char>, id: &str, st: &crate::status::Status)
    ensures
        final(out)@ == old(out)@ + spec_encode_entry(id@, st@),
        id@.len() <= usize::MAX,
        status_model_bounded(st@),
{
    push_str_token(out, id);
    push_status_record(out, st);
    out.push('\n');
    proof {
        assert(out@ =~= old(out)@ + spec_encode_entry(id@, st@));
    }
}

fn d_num5(cs: &Vec<char>, pos: usize) -> (r: Option<(u16, usize)>)
    requires
        pos <= cs@.len(),
    ensures
        match r {
            Some((v, p)) => dec_num5(cs@, pos as int) == Some((v, p as int)) && pos < p <= cs@.len(),
            None => dec_num5(cs@, pos as int) is None,
        },
{
    if cs.len() - pos < NUM_WIDTH {
        return None;
    }
    match crate::text::parse_num(cs, pos, NUM_WIDTH) {
        Option::Some(v) => {
            if v <= u16::MAX as u128 {
                Some((v as u16, pos + NUM_WIDTH))
            } else {
                None
            }
        },
        Option::None => None,
    }
}

fn d_num20(cs: &Vec<char>, pos: usize) -> (r: Option<(usize, usize)>)
    requires
        pos <= cs@.len(),
    ensures
        match r {
            Some((v, p)) => dec_num20(cs@, pos as int) == Some((v, p as int)) && pos < p
                <= cs@.len(),
            None => dec_num20(cs@, pos as int) is None,
        },
{
    if cs.len() - pos < crate::text::LEN_WIDTH {
        return None;
    }
    match crate::text::parse_num(cs, pos, crate::text::LEN_WIDTH) {
        Option::Some(v) => {
            if v <= usize::MAX as u128 {
                Some((v as usize, pos + crate::text::LEN_WIDTH))
            } else {
                None
            }
        },
        Option::None => None,
    }
}

fn d_str(cs: &Vec<char>, pos: usize) -> (r: Option<(String, usize)>)
    requires
        pos <= cs@.len(),
    ensures
        match r {
            Some((v, p)) => dec_str(cs@, pos as int) == Some((v@, p as int)) && pos < p
                <= cs@.len(),
            None => dec_str(cs@, pos as int) is None,
        },
{
    match d_num20(cs, pos) {
        Option::Some((n, p)) => {
            if n > cs.len() - p {
                return None;
            }
            let v = crate::text::string_from_range(cs, p, p + n);
            Some((v, p + n))
        },
        Option::None => None,
    }
}

fn d_opt_str(cs: &Vec<char>, pos: usize) -> (r: Option<(Option<String>, usize)>)
    requires
        pos <= cs@.len(),
    ensures
        match r {
            Some((v, p)) => dec_opt_str(cs@, pos as int) == Some(
                (crate::error::opt_str_view(v), p as int),
            ) && pos < p <= cs@.len(),
            None => dec_opt_str(cs@, pos as int) is None,
        },
{
    if pos >= cs.len() {
        return None;
    }
    let m = cs[pos];
    if m == '-' {
        Some((None, pos + 1))
    } else if m == '+' {
        match d_str(cs, pos + 1) {
            Option::Some((v, p)) => Some((Some(v), p)),
            Option::None => None,
        }
    } else {
        None
    }
}

fn d_opt_num5(cs: &Vec<char>, pos: usize) -> (r: Option<(Option<u16>, usize)>)
    requires
        pos <= cs@.len(),
    ensures
        match r {
            Some((v, p)) => dec_opt_num5(cs@, pos as int) == Some((v, p as int)) && pos < p
                <= cs@.len(),
            None => dec_opt_num5(cs@, pos as int) is None,
        },
{
    if pos >= cs.len() {
        return None;
    }
    let m = cs[pos];
    if m == '-' {
        Some((None, pos + 1))
    } else if m == '+' {
        match d_num5(cs, pos + 1) {
            Option::Some((v, p)) => Some((Some(v), p)),
            Option::None => None,
        }
    } else {
        None
    }
}

/// Rebuilds a cause from a decoded record, mirroring `kind_of_fields`.
fn build_kind(
    tag: u16,
    a: Option<String>,
    b: String,
    c: String,
    d: Option<u16>,
    e: usize,
) -> (r: Option<crate::error::ErrorKind>)
    ensures
        ({
            let f = KindFields {
                tag,
                a: crate::error::opt_str_view(a),
                b: b@,
                c: c@,
                d,
                e,
            };
            match r {
                Some(k) => kind_of_fields(f) == Some(k@),
                None => kind_of_fields(f) is None,
            }
        }),
{
    if tag == 1 {
        match d {
            Option::Some(code) => match crate::error::IoCategory::from_code(code) {
                Option::Some(category) => Some(
                    crate::error::ErrorKind::Io { path: a, category, message: b },
                ),
                Option::None => None,
            },
            Option::None => None,
        }
    } else if tag == 2 {
        Some(crate::error::ErrorKind::Encoding { message: b })
    } else if tag == 3 {
        match d {
            Option::Some(code) => {
                if 100 <= code && code <= 999 {
                    Some(crate::error::ErrorKind::Client { err: b, status: Some(code) })
                } else {
                    None
                }
            },
            Option::None => Some(crate::error::ErrorKind::Client { err: b, status: None }),
        }
    } else if tag == 4 {
        Some(crate::error::ErrorKind::Github { message: b })
    } else if tag == 5 {
        Some(crate::error::ErrorKind::Parse { input: b, url_error: c, mail_error: a })
    } else if tag == 6 {
        Some(crate::error::ErrorKind::UrlFromPath { path: b })
    } else if tag == 7 {
        Some(crate::error::ErrorKind::FileNotFound { path: b })
    } else if tag == 8 {
        Some(crate::error::ErrorKind::FileUriNotFound { uri: b })
    } else if tag == 9 {
        Some(crate::error::ErrorKind::Mail { uri: b })
    } else if tag == 10 {
        Some(crate::error::ErrorKind::Header { message: b })
    } else if tag == 11 {
        Some(crate::error::ErrorKind::Base { base: b, message: c })
    } else if tag == 12 {
        Some(crate::error::ErrorKind::DirTraversal { message: b })
    } else if tag == 13 {
        Some(crate::error::ErrorKind::Glob { position: e, message: b })
    } else if tag == 14 {
        Some(crate::error::ErrorKind::MissingGitHubToken)
    } else if tag == 15 {
        Some(crate::error::ErrorKind::InsecureURL { uri: b })
    } else if tag == 16 {
        Some(crate::error::ErrorKind::Channel { message: b })
    } else if tag == 17 {
        Some(crate::error::ErrorKind::MissingHost)
    } else if tag == 18 {
        Some(crate::error::ErrorKind::InvalidURI { uri: b })
    } else {
        None
    }
}

/// Every verdict a record rebuilds to is valid.
proof fn lemma_status_of_fields_wf(g: StatusFields)
    requires
        status_of_fields(g) is Some,
    ensures
        status_model_wf(status_of_fields(g)->0),
{
}

/// Decodes one snapshot line, mirroring `spec_decode_entry`.
fn d_entry(cs: &Vec<char>, pos: usize) -> (r: Option<((String, crate::status::Status), usize)>)
    requires
        pos <= cs@.len(),
    ensures
        match r {
            Some(((id, st), p)) => spec_decode_entry(cs@, pos as int) == Some(
                ((id@, st@), p as int),
            ) && pos < p <= cs@.len() && st.wf(),
            None => spec_decode_entry(cs@, pos as int) is None,
        },
{
    let (id, p1) = match d_str(cs, pos) {
        Option::Some(x) => x,
        Option::None => {
            return None;
        },
    };
    let (tag, q1) = match d_num5(cs, p1) {
        Option::Some(x) => x,
        Option::None => {
            return None;
        },
    };
    let (oc, q2) = match d_opt_num5(cs, q1) {
        Option::Some(x) => x,
        Option::None => {
            return None;
        },
    };
    let (ktag, r1) = match d_num5(cs, q2) {
        Option::Some(x) => x,
        Option::None => {
            return None;
        },
    };
    let (a, r2) = match d_opt_str(cs, r1) {
        Option::Some(x) => x,
        Option::None => {
            return None;
        },
    };
    let (b, r3) = match d_str(cs, r2) {
        Option::Some(x) => x,
        Option::None => {
            return None;
        },
    };
    let (c, r4) = match d_str(cs, r3) {
        Option::Some(x) => x,
        Option::None => {
            return None;
        },
    };
    let (d, r5) = match d_opt_num5(cs, r4) {
        Option::Some(x) => x,
        Option::None => {
            return None;
        },
    };
    let (e, p2) = match d_num20(cs, r5) {
        Option::Some(x) => x,
        Option::None => {
            return None;
        },
    };
    let ghost f = KindFields {
        tag: ktag,
        a: crate::error::opt_str_view(a),
        b: b@,
        c: c@,
        d,
        e,
    };
    let ghost g = StatusFields { tag, oc, kind: f };
    proof {
        assert(dec_kind_fields(cs@, q2 as int) == Some((f, p2 as int)));
        assert(dec_status_fields(cs@, p1 as int) == Some((g, p2 as int)));
    }
    let st: crate::status::Status = if tag == 1 {
        match oc {
            Option::Some(code) => {
                if 100 <= code && code <= 999 {
                    crate::status::Status::Success(code)
                } else {
                    return None;
                }
            },
            Option::None => {
                return None;
            },
        }
    } else if tag == 2 {
        match build_kind(ktag, a, b, c, d, e) {
            Option::Some(k) => crate::status::Status::Error(k),
            Option::None => {
                return None;
            },
        }
    } else if tag == 3 {
        match oc {
            Option::Some(code) => {
                if 100 <= code && code <= 999 {
                    crate::status::Status::Timeout(Some(code))
                } else {
                    return None;
                }
            },
            Option::None => crate::status::Status::Timeout(None),
        }
    } else if tag == 4 {
        match oc {
            Option::Some(code) => {
                if 100 <= code && code <= 999 {
                    crate::status::Status::Redirected(code)
                } else {
                    return None;
                }
            },
            Option::None => {
                return None;
            },
        }
    } else if tag == 5 {
        match oc {
            Option::Some(code) => {
                if 100 <= code && code <= 999 {
                    crate::status::Status::UnknownStatusCode(code)
                } else {
                    return None;
                }
            },
            Option::None => {
                return None;
            },
        }
    } else if tag == 6 {
        crate::status::Status::Excluded
    } else if tag == 7 {
        match build_kind(ktag, a, b, c, d, e) {
            Option::Some(k) => crate::status::Status::Unsupported(k),
            Option::None => {
                return None;
            },
        }
    } else {
        return None;
    };
    proof {
        assert(status_of_fields(g) == Some(st@));
        lemma_status_of_fields_wf(g);
        crate::status::lemma_wf_via_model(st);
    }
    if p2 < cs.len() {
        let nl = cs[p2];
        if nl == '\n' {
            Some(((id, st), p2 + 1))
        } else {
            None
        }
    } else {
        None
    }
}

/// The views of a list of decoded entries.
pub open spec fn view_pairs(s: Seq<(String, crate::status::Status)>) -> Seq<
    (Seq<char>, StatusModel),
> {
    s.map_values(|p: (String, crate::status::Status)| (p.0@, p.1@))
}

/// Decodes a whole snapshot, mirroring `spec_decode_snapshot`; `None` on
/// any malformed text.
pub fn decode_entries(cs: &Vec<char>) -> (r: Option<Vec<(String, crate::status::Status)>>)
    ensures
        match r {
            Some(v) => {
                &&& spec_decode_snapshot(cs@, 0) == Some(view_pairs(v@))
                &&& forall|i: int| 0 <= i < v@.len() ==> (#[trigger] v@[i]).1.wf()
            },
            None => spec_decode_snapshot(cs@, 0) is None,
        },
{
    let mut out: Vec<(String, crate::status::Status)> = Vec::new();
    let mut pos: usize = 0;
    proof {
        assert(view_pairs(out@) =~= Seq::<(Seq<char>, StatusModel)>::empty());
    }
    while pos < cs.len()
        invariant
            pos <= cs@.len(),
            spec_decode_snapshot(cs@, 0) == (match spec_decode_snapshot(cs@, pos as int) {
                Some(rest) => Some(view_pairs(out@) + rest),
                None => None::<Seq<(Seq<char>, StatusModel)>>,
            }),
            forall|i: int| 0 <= i < out@.len() ==> (#[trigger] out@[i]).1.wf(),
        decreases cs@.len() - pos,
    {
        let ghost out0 = out@;
        match d_entry(cs, pos) {
            Option::Some((pair, p)) => {
                let ghost pr = (pair.0@, pair.1@);
                out.push(pair);
                proof {
                    assert(view_pairs(out@) =~= view_pairs(out0) + seq![pr]);
                    if spec_decode_snapshot(cs@, p as int) is Some {
                        let rest = spec_decode_snapshot(cs@, p as int)->0;
                        assert(spec_decode_snapshot(cs@, pos as int) == Some(seq![pr] + rest));
                        assert((view_pairs(out0) + (seq![pr] + rest)) =~= (view_pairs(out0)
                            + seq![pr]) + rest);
                    }
                }
                pos = p;
            },
            Option::None => {
                proof {
                    assert(spec_decode_snapshot(cs@, pos as int) is None);
                }
                return None;
            },
        }
    }
    proof {
        assert(spec_decode_snapshot(cs@, pos as int) == Some(
            Seq::<(Seq<char>, StatusModel)>::empty(),
        ));
        assert(view_pairs(out@) + Seq::<(Seq<char>, StatusModel)>::empty() =~= view_pairs(out@));
    }
    Some(out)
}

/// Renders an optional status code as its token text.
pub fn serialize(value: &Option<u16>) -> (r: String)
    ensures
        r@ == enc_opt_num5(*value),
{
    let mut out: Vec<char> = Vec::new();
    push_opt_num5(&mut out, value);
    let r = crate::text::string_from_range(&out, 0, out.len());
    proof {
        assert(out@.subrange(0, out@.len() as int) =~= out@);
    }
    r
}

/// Reads an optional status code back from its token text; `None` unless
/// the whole text is one such token.
pub fn deserialize(s: &str) -> (r: Option<Option<u16>>)
    ensures
        match r {
            Some(v) => dec_opt_num5(s@, 0) == Some((v, s@.len() as int)),
            None => dec_opt_num5(s@, 0) matches Some((v, p)) ==> p != s@.len(),
        },
{
    let cs = crate::text::chars_of(s);
    match d_opt_num5(&cs, 0) {
        Option::Some((v, p)) => {
            if p == cs.len() {
                Some(v)
            } else {
                None
            }
        },
        Option::None => None,
    }
}

/// An optional status code's token round-trips.
pub proof fn lemma_opt_code_round_trip(o: Option<u16>)
    ensures
        dec_opt_num5(enc_opt_num5(o), 0) == Some((o, enc_opt_num5(o).len() as int)),
{
    let s = enc_opt_num5(o);
    assert(s.subrange(0, s.len() as int) =~= s);
    lemma_rt_opt_num5(s, 0, o);
}

/// Persisting the same contents twice, in any entry orders that stand
/// for the same mapping, gives two snapshots that decode to the same
/// mapping.
pub proof fn lemma_persist_idempotent(
    p1: Seq<(Seq<char>, StatusModel)>,
    p2: Seq<(Seq<char>, StatusModel)>,
)
    requires
        pairs_ok(p1),
        pairs_ok(p2),
        pairs_to_map(p1) == pairs_to_map(p2),
    ensures
        spec_decode_snapshot(spec_encode_snapshot(p1), 0) is Some,
        spec_decode_snapshot(spec_encode_snapshot(p2), 0) is Some,
        pairs_to_map(spec_decode_snapshot(spec_encode_snapshot(p1), 0)->0) == pairs_to_map(
            spec_decode_snapshot(spec_encode_snapshot(p2), 0)->0,
        ),
{
    lemma_snapshot_round_trip(p1);
    lemma_snapshot_round_trip(p2);
}

} // verus!
