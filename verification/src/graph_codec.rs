//! The graph codec: declarative node trees persist as JSON records with a
//! string discriminator per kind, children in order, and the leaf source's
//! raster type as its one node-local parameter.  Decoding accepts exactly
//! the canonical records the encoder writes; an unknown discriminator or a
//! structurally invalid record is a decode failure.

use vstd::prelude::*;

use crate::add_raster_operator::MetaAddRasterOperator;
use crate::error::EngineError;
use crate::gdal_source::MetaGdalSource;
use crate::meta_raster_operator::{MetaRasterOperator, MetaVectorOperator};
use crate::my_vector_source::MetaMyVectorSourceOperator;
use crate::noop_operator::MetaNoopOperator;
use crate::plus_one_operator::MetaPlusOneOperator;
use crate::raster_type::RasterType;
use crate::raster_vector_operator::MetaRasterVectorOperator;
use vstd::string::StrSliceExecFns;
use vstd::string::StringExecFns;

verus! {

/// The name of a raster type in a persisted record, with the quote and
/// brace that close a leaf-source record.
pub open spec fn spec_tag_text(t: RasterType) -> Seq<char> {
    match t {
        RasterType::U8 => "U8\"}"@,
        RasterType::U16 => "U16\"}"@,
        RasterType::U32 => "U32\"}"@,
        RasterType::U64 => "U64\"}"@,
        RasterType::I16 => "I16\"}"@,
        RasterType::I32 => "I32\"}"@,
        RasterType::I64 => "I64\"}"@,
        RasterType::F32 => "F32\"}"@,
        RasterType::F64 => "F64\"}"@,
    }
}

/// The canonical persisted text of a raster node tree.
pub open spec fn spec_encode_raster(t: MetaRasterOperator) -> Seq<char>
    decreases t,
{
    match t {
        MetaRasterOperator::GdalSource(m) => "{\"type\":\"MetaGdalSource\",\"raster_type\":\""@
            + spec_tag_text(m.raster_type),
        MetaRasterOperator::Noop(m) => "{\"type\":\"MetaNoopOperator\",\"sources\":["@
            + spec_encode_raster_list(m.sources@) + "]}"@,
        MetaRasterOperator::PlusOne(m) => "{\"type\":\"MetaPlusOneOperator\",\"sources\":["@
            + spec_encode_raster_list(m.sources@) + "]}"@,
        MetaRasterOperator::AddRaster(m) => "{\"type\":\"MetaAddRasterOperator\",\"sources\":["@
            + spec_encode_raster_list(m.sources@) + "]}"@,
    }
}

/// The canonical persisted text of a list of raster node trees: the
/// records in order, separated by commas.
pub open spec fn spec_encode_raster_list(ts: Seq<MetaRasterOperator>) -> Seq<char>
    decreases ts,
{
    if ts.len() == 0 {
        Seq::empty()
    } else if ts.len() == 1 {
        spec_encode_raster(ts[0])
    } else {
        spec_encode_raster(ts[0]) + ","@ + spec_encode_raster_list(ts.drop_first())
    }
}

/// The canonical persisted text of a vector node tree.
pub open spec fn spec_encode_vector(t: MetaVectorOperator) -> Seq<char>
    decreases t,
{
    match t {
        MetaVectorOperator::MyVectorSource(m) => "{\"type\":\"MetaMyVectorSourceOperator\"}"@,
        MetaVectorOperator::RasterVector(m) => "{\"type\":\"MetaRasterVectorOperator\",\"raster_sources\":["@
            + spec_encode_raster_list(m.raster_sources@) + "],\"vector_sources\":["@
            + spec_encode_vector_list(m.vector_sources@) + "]}"@,
    }
}

/// The canonical persisted text of a list of vector node trees.
pub open spec fn spec_encode_vector_list(ts: Seq<MetaVectorOperator>) -> Seq<char>
    decreases ts,
{
    if ts.len() == 0 {
        Seq::empty()
    } else if ts.len() == 1 {
        spec_encode_vector(ts[0])
    } else {
        spec_encode_vector(ts[0]) + ","@ + spec_encode_vector_list(ts.drop_first())
    }
}

/// Appends the tag name and the closing quote and brace of a leaf-source
/// record.
fn append_tag_text(out: &mut String, t: RasterType)
    ensures
        final(out)@ == old(out)@ + spec_tag_text(t),
{
    match t {
        RasterType::U8 => out.append("U8\"}"),
        RasterType::U16 => out.append("U16\"}"),
        RasterType::U32 => out.append("U32\"}"),
        RasterType::U64 => out.append("U64\"}"),
        RasterType::I16 => out.append("I16\"}"),
        RasterType::I32 => out.append("I32\"}"),
        RasterType::I64 => out.append("I64\"}"),
        RasterType::F32 => out.append("F32\"}"),
        RasterType::F64 => out.append("F64\"}"),
    }
}

/// Appends the canonical record of one raster node tree.
fn append_raster(out: &mut String, t: &MetaRasterOperator)
    ensures
        final(out)@ == old(out)@ + spec_encode_raster(*t),
    decreases *t,
{
    match t {
        MetaRasterOperator::GdalSource(m) => {
            out.append("{\"type\":\"MetaGdalSource\",\"raster_type\":\"");
            append_tag_text(out, m.raster_type);
        },
        MetaRasterOperator::Noop(m) => {
            out.append("{\"type\":\"MetaNoopOperator\",\"sources\":[");
            append_raster_list(out, &m.sources, 0);
            out.append("]}");
        },
        MetaRasterOperator::PlusOne(m) => {
            out.append("{\"type\":\"MetaPlusOneOperator\",\"sources\":[");
            append_raster_list(out, &m.sources, 0);
            out.append("]}");
        },
        MetaRasterOperator::AddRaster(m) => {
            out.append("{\"type\":\"MetaAddRasterOperator\",\"sources\":[");
            append_raster_list(out, &m.sources, 0);
            out.append("]}");
        },
    }
    proof {
        match t {
            MetaRasterOperator::GdalSource(m) => {
            },
            MetaRasterOperator::Noop(m) => {
                assert(m.sources@.skip(0) =~= m.sources@);
            },
            MetaRasterOperator::PlusOne(m) => {
                assert(m.sources@.skip(0) =~= m.sources@);
            },
            MetaRasterOperator::AddRaster(m) => {
                assert(m.sources@.skip(0) =~= m.sources@);
            },
        }
        assert(out@ =~= old(out)@ + spec_encode_raster(*t));
    }
}

/// Appends the canonical records of the list's trees from index `i` on.
fn append_raster_list(out: &mut String, ts: &Vec<MetaRasterOperator>, i: usize)
    requires
        i <= ts@.len(),
    ensures
        final(out)@ == old(out)@ + spec_encode_raster_list(ts@.skip(i as int)),
    decreases ts@, ts@.len() - i,
{
    if i < ts.len() {
        append_raster(out, &ts[i]);
        if i + 1 < ts.len() {
            out.append(",");
            append_raster_list(out, ts, i + 1);
        }
    }
    proof {
        lemma_encode_raster_list_step(ts@, i as int);
        assert(out@ =~= old(out)@ + spec_encode_raster_list(ts@.skip(i as int)));
    }
}

/// How one step of the list encoding unfolds on a suffix of the list.
proof fn lemma_encode_raster_list_step(ts: Seq<MetaRasterOperator>, i: int)
    requires
        0 <= i <= ts.len(),
    ensures
        ts.len() - i == 0 ==> spec_encode_raster_list(ts.skip(i)) == Seq::<char>::empty(),
        ts.len() - i == 1 ==> spec_encode_raster_list(ts.skip(i)) == spec_encode_raster(ts[i]),
        ts.len() - i >= 2 ==> spec_encode_raster_list(ts.skip(i)) == spec_encode_raster(ts[i])
            + ","@ + spec_encode_raster_list(ts.skip(i + 1)),
{
    let s = ts.skip(i);
    if ts.len() - i >= 2 {
        assert(s.drop_first() =~= ts.skip(i + 1));
    }
}

/// Appends the canonical record of one vector node tree.
fn append_vector(out: &mut String, t: &MetaVectorOperator)
    ensures
        final(out)@ == old(out)@ + spec_encode_vector(*t),
    decreases *t,
{
    match t {
        MetaVectorOperator::MyVectorSource(m) => {
            out.append("{\"type\":\"MetaMyVectorSourceOperator\"}");
        },
        MetaVectorOperator::RasterVector(m) => {
            out.append("{\"type\":\"MetaRasterVectorOperator\",\"raster_sources\":[");
            append_raster_list(out, &m.raster_sources, 0);
            out.append("],\"vector_sources\":[");
            append_vector_list(out, &m.vector_sources, 0);
            out.append("]}");
        },
    }
    proof {
        match t {
            MetaVectorOperator::MyVectorSource(m) => {
            },
            MetaVectorOperator::RasterVector(m) => {
                assert(m.raster_sources@.skip(0) =~= m.raster_sources@);
                assert(m.vector_sources@.skip(0) =~= m.vector_sources@);
            },
        }
        assert(out@ =~= old(out)@ + spec_encode_vector(*t));
    }
}

/// Appends the canonical records of the list's trees from index `i` on.
fn append_vector_list(out: &mut String, ts: &Vec<MetaVectorOperator>, i: usize)
    requires
        i <= ts@.len(),
    ensures
        final(out)@ == old(out)@ + spec_encode_vector_list(ts@.skip(i as int)),
    decreases ts@, ts@.len() - i,
{
    if i < ts.len() {
        append_vector(out, &ts[i]);
        if i + 1 < ts.len() {
            out.append(",");
            append_vector_list(out, ts, i + 1);
        }
    }
    proof {
        lemma_encode_vector_list_step(ts@, i as int);
        assert(out@ =~= old(out)@ + spec_encode_vector_list(ts@.skip(i as int)));
    }
}

/// How one step of the list encoding unfolds on a suffix of the list.
proof fn lemma_encode_vector_list_step(ts: Seq<MetaVectorOperator>, i: int)
    requires
        0 <= i <= ts.len(),
    ensures
        ts.len() - i == 0 ==> spec_encode_vector_list(ts.skip(i)) == Seq::<char>::empty(),
        ts.len() - i == 1 ==> spec_encode_vector_list(ts.skip(i)) == spec_encode_vector(ts[i]),
        ts.len() - i >= 2 ==> spec_encode_vector_list(ts.skip(i)) == spec_encode_vector(ts[i])
            + ","@ + spec_encode_vector_list(ts.skip(i + 1)),
{
    let s = ts.skip(i);
    if ts.len() - i >= 2 {
        assert(s.drop_first() =~= ts.skip(i + 1));
    }
}

/// Whether the text holds exactly `lit` at position `pos`.
pub open spec fn spec_match_lit(s: Seq<char>, pos: int, lit: Seq<char>) -> bool {
    &&& 0 <= pos
    &&& pos + lit.len() <= s.len()
    &&& s.subrange(pos, pos + lit.len()) == lit
}

/// Splitting a matched concatenation: each part matches in place.
proof fn lemma_match_split(s: Seq<char>, pos: int, a: Seq<char>, b: Seq<char>)
    requires
        spec_match_lit(s, pos, a + b),
    ensures
        spec_match_lit(s, pos, a),
        spec_match_lit(s, pos + a.len(), b),
{
    assert(s.subrange(pos, pos + a.len()) =~= a);
    assert forall|k: int| 0 <= k < b.len() implies s[pos + a.len() + k] == b[k] by {
        assert(s.subrange(pos, pos + (a + b).len())[a.len() + k] == s[pos + a.len() + k]);
        assert((a + b)[a.len() + k] == b[k]);
    }
    assert(s.subrange(pos + a.len(), pos + a.len() + b.len()) =~= b);
}

/// Joining adjacent matches: the concatenation matches in place.
proof fn lemma_match_join(s: Seq<char>, pos: int, a: Seq<char>, b: Seq<char>)
    requires
        spec_match_lit(s, pos, a),
        spec_match_lit(s, pos + a.len(), b),
    ensures
        spec_match_lit(s, pos, a + b),
{
    assert(s.subrange(pos, pos + a.len() + b.len()) =~= a + b);
}

/// The characters of the text, in order.
fn to_char_vec(s: &str) -> (v: Vec<char>)
    ensures
        v@ == s@,
{
    let n = s.unicode_len();
    let mut v: Vec<char> = Vec::new();
    let mut i: usize = 0;
    while i < n
        invariant
            i <= n,
            n == s@.len(),
            v@ == s@.subrange(0, i as int),
        decreases n - i,
    {
        v.push(s.get_char(i));
        proof {
            assert(v@ =~= s@.subrange(0, i + 1));
        }
        i = i + 1;
    }
    proof {
        assert(v@ =~= s@);
    }
    v
}

/// Consumes `lit` at `pos` if the text holds it there, handing back the
/// position after it; yields nothing exactly when the text does not hold
/// it there.
fn skip_lit(chars: &Vec<char>, pos: usize, lit: &str) -> (r: Option<usize>)
    requires
        pos <= chars@.len(),
    ensures
        r matches Some(p) ==> p == pos + lit@.len() && p <= chars@.len() && spec_match_lit(
            chars@,
            pos as int,
            lit@,
        ),
        r is None ==> !spec_match_lit(chars@, pos as int, lit@),
{
    let n = lit.unicode_len();
    if n > chars.len() - pos {
        return None;
    }
    let mut i: usize = 0;
    while i < n
        invariant
            i <= n,
            n == lit@.len(),
            pos + n <= chars@.len(),
            chars@.len() <= usize::MAX,
            forall|j: int| 0 <= j < i ==> chars@[pos + j] == lit@[j],
        decreases n - i,
    {
        if lit.get_char(i) != chars[pos + i] {
            proof {
                if spec_match_lit(chars@, pos as int, lit@) {
                    assert(chars@.subrange(pos as int, pos + lit@.len())[i as int] == chars@[pos
                        + i]);
                }
            }
            return None;
        }
        i = i + 1;
    }
    proof {
        assert(chars@.subrange(pos as int, pos + lit@.len()) =~= lit@);
    }
    Some(pos + n)
}

/// Two different type names never match at the same position: every pair
/// differs within its first two characters.
proof fn lemma_tag_text_disjoint(s: Seq<char>, pos: int, t1: RasterType, t2: RasterType)
    requires
        spec_match_lit(s, pos, spec_tag_text(t1)),
        spec_match_lit(s, pos, spec_tag_text(t2)),
    ensures
        t1 == t2,
{
    reveal_strlit("U8\"}");
    reveal_strlit("U16\"}");
    reveal_strlit("U32\"}");
    reveal_strlit("U64\"}");
    reveal_strlit("I16\"}");
    reveal_strlit("I32\"}");
    reveal_strlit("I64\"}");
    reveal_strlit("F32\"}");
    reveal_strlit("F64\"}");
    let a = spec_tag_text(t1);
    let b = spec_tag_text(t2);
    assert(s.subrange(pos, pos + a.len())[0] == s[pos]);
    assert(s.subrange(pos, pos + a.len())[1] == s[pos + 1]);
    assert(s.subrange(pos, pos + b.len())[0] == s[pos]);
    assert(s.subrange(pos, pos + b.len())[1] == s[pos + 1]);
    assert(a[0] == b[0] && a[1] == b[1]);
}

/// Parses a type name followed by the quote and brace that close a
/// leaf-source record.
fn parse_tag(chars: &Vec<char>, pos: usize) -> (r: Option<(RasterType, usize)>)
    requires
        pos <= chars@.len(),
    ensures
        r matches Some(p) ==> p.1 == pos + spec_tag_text(p.0).len() && p.1 <= chars@.len()
            && spec_match_lit(chars@, pos as int, spec_tag_text(p.0)),
        forall|t: RasterType| spec_match_lit(chars@, pos as int, spec_tag_text(t)) ==> (r
            matches Some(p) && p.0 == t && p.1 == pos + spec_tag_text(t).len()),
{
    let r: Option<(RasterType, usize)> = if let Some(p) = skip_lit(chars, pos, "U8\"}") {
        Some((RasterType::U8, p))
    } else if let Some(p) = skip_lit(chars, pos, "U16\"}") {
        Some((RasterType::U16, p))
    } else if let Some(p) = skip_lit(chars, pos, "U32\"}") {
        Some((RasterType::U32, p))
    } else if let Some(p) = skip_lit(chars, pos, "U64\"}") {
        Some((RasterType::U64, p))
    } else if let Some(p) = skip_lit(chars, pos, "I16\"}") {
        Some((RasterType::I16, p))
    } else if let Some(p) = skip_lit(chars, pos, "I32\"}") {
        Some((RasterType::I32, p))
    } else if let Some(p) = skip_lit(chars, pos, "I64\"}") {
        Some((RasterType::I64, p))
    } else if let Some(p) = skip_lit(chars, pos, "F32\"}") {
        Some((RasterType::F32, p))
    } else if let Some(p) = skip_lit(chars, pos, "F64\"}") {
        Some((RasterType::F64, p))
    } else {
        None
    };
    proof {
        if let Some(p) = r {
            assert forall|t: RasterType| spec_match_lit(
                chars@,
                pos as int,
                spec_tag_text(t),
            ) implies p.0 == t && p.1 == pos + spec_tag_text(t).len() by {
                lemma_tag_text_disjoint(chars@, pos as int, p.0, t);
            }
        }
    }
    r
}

/// Whether the canonical record of the raster tree `t` stands at `pos`.
pub open spec fn spec_raster_at(s: Seq<char>, pos: int, t: MetaRasterOperator) -> bool {
    spec_match_lit(s, pos, spec_encode_raster(t))
}

/// Whether the canonical records of the raster list `l` stand at `pos`,
/// followed by the closing bracket that delimits every child list.
pub open spec fn spec_raster_list_at(s: Seq<char>, pos: int, l: Seq<MetaRasterOperator>) -> bool {
    &&& spec_match_lit(s, pos, spec_encode_raster_list(l))
    &&& pos + spec_encode_raster_list(l).len() < s.len()
    &&& s[pos + spec_encode_raster_list(l).len()] == ']'
}

/// Pointwise structural equality of two raster tree lists.
pub open spec fn spec_raster_list_eq(a: Seq<MetaRasterOperator>, b: Seq<MetaRasterOperator>) -> bool {
    a.len() == b.len() && (forall|i: int|
        0 <= i < a.len() ==> crate::meta_raster_operator::spec_raster_tree_eq(a[i], b[i]))
}

/// Every raster record opens with a brace.
proof fn lemma_raster_enc_opens(t: MetaRasterOperator)
    ensures
        spec_encode_raster(t).len() >= 1,
        spec_encode_raster(t)[0] == '{',
{
    reveal_strlit("{\"type\":\"MetaGdalSource\",\"raster_type\":\"");
    reveal_strlit("{\"type\":\"MetaNoopOperator\",\"sources\":[");
    reveal_strlit("{\"type\":\"MetaPlusOneOperator\",\"sources\":[");
    reveal_strlit("{\"type\":\"MetaAddRasterOperator\",\"sources\":[");
}

/// Two different raster kind headers never match at the same position:
/// they differ at the first character after the shared `Meta` prefix.
proof fn lemma_raster_head_confusion(s: Seq<char>, pos: int)
    ensures
        !(spec_match_lit(s, pos, "{\"type\":\"MetaGdalSource\",\"raster_type\":\""@)
            && spec_match_lit(s, pos, "{\"type\":\"MetaNoopOperator\",\"sources\":["@)),
        !(spec_match_lit(s, pos, "{\"type\":\"MetaGdalSource\",\"raster_type\":\""@)
            && spec_match_lit(s, pos, "{\"type\":\"MetaPlusOneOperator\",\"sources\":["@)),
        !(spec_match_lit(s, pos, "{\"type\":\"MetaGdalSource\",\"raster_type\":\""@)
            && spec_match_lit(s, pos, "{\"type\":\"MetaAddRasterOperator\",\"sources\":["@)),
        !(spec_match_lit(s, pos, "{\"type\":\"MetaNoopOperator\",\"sources\":["@)
            && spec_match_lit(s, pos, "{\"type\":\"MetaPlusOneOperator\",\"sources\":["@)),
        !(spec_match_lit(s, pos, "{\"type\":\"MetaNoopOperator\",\"sources\":["@)
            && spec_match_lit(s, pos, "{\"type\":\"MetaAddRasterOperator\",\"sources\":["@)),
        !(spec_match_lit(s, pos, "{\"type\":\"MetaPlusOneOperator\",\"sources\":["@)
            && spec_match_lit(s, pos, "{\"type\":\"MetaAddRasterOperator\",\"sources\":["@)),
{
    reveal_strlit("{\"type\":\"MetaGdalSource\",\"raster_type\":\"");
    reveal_strlit("{\"type\":\"MetaNoopOperator\",\"sources\":[");
    reveal_strlit("{\"type\":\"MetaPlusOneOperator\",\"sources\":[");
    reveal_strlit("{\"type\":\"MetaAddRasterOperator\",\"sources\":[");
    let g = "{\"type\":\"MetaGdalSource\",\"raster_type\":\""@;
    let n = "{\"type\":\"MetaNoopOperator\",\"sources\":["@;
    let p = "{\"type\":\"MetaPlusOneOperator\",\"sources\":["@;
    let a = "{\"type\":\"MetaAddRasterOperator\",\"sources\":["@;
    if spec_match_lit(s, pos, g) {
        assert(s.subrange(pos, pos + g.len())[13] == s[pos + 13]);
    }
    if spec_match_lit(s, pos, n) {
        assert(s.subrange(pos, pos + n.len())[13] == s[pos + 13]);
    }
    if spec_match_lit(s, pos, p) {
        assert(s.subrange(pos, pos + p.len())[13] == s[pos + 13]);
    }
    if spec_match_lit(s, pos, a) {
        assert(s.subrange(pos, pos + a.len())[13] == s[pos + 13]);
    }
}

/// The record of a raster tree, taken apart at `pos`: the kind's header,
/// the child region, and the closing characters all match in place.
proof fn lemma_raster_at_parts(s: Seq<char>, pos: int, t: MetaRasterOperator)
    requires
        spec_raster_at(s, pos, t),
    ensures
        t matches MetaRasterOperator::GdalSource(m) ==> spec_match_lit(
            s,
            pos,
            "{\"type\":\"MetaGdalSource\",\"raster_type\":\""@,
        ) && spec_match_lit(
            s,
            pos + "{\"type\":\"MetaGdalSource\",\"raster_type\":\""@.len(),
            spec_tag_text(m.raster_type),
        ),
        t matches MetaRasterOperator::Noop(m) ==> spec_match_lit(
            s,
            pos,
            "{\"type\":\"MetaNoopOperator\",\"sources\":["@,
        ) && spec_raster_list_at(
            s,
            pos + "{\"type\":\"MetaNoopOperator\",\"sources\":["@.len(),
            m.sources@,
        ) && spec_match_lit(
            s,
            pos + spec_encode_raster(t).len() - 2,
            "]}"@,
        ),
        t matches MetaRasterOperator::PlusOne(m) ==> spec_match_lit(
            s,
            pos,
            "{\"type\":\"MetaPlusOneOperator\",\"sources\":["@,
        ) && spec_raster_list_at(
            s,
            pos + "{\"type\":\"MetaPlusOneOperator\",\"sources\":["@.len(),
            m.sources@,
        ) && spec_match_lit(
            s,
            pos + spec_encode_raster(t).len() - 2,
            "]}"@,
        ),
        t matches MetaRasterOperator::AddRaster(m) ==> spec_match_lit(
            s,
            pos,
            "{\"type\":\"MetaAddRasterOperator\",\"sources\":["@,
        ) && spec_raster_list_at(
            s,
            pos + "{\"type\":\"MetaAddRasterOperator\",\"sources\":["@.len(),
            m.sources@,
        ) && spec_match_lit(
            s,
            pos + spec_encode_raster(t).len() - 2,
            "]}"@,
        ),
{
    reveal_strlit("]}");
    match t {
        MetaRasterOperator::GdalSource(m) => {
            let head = "{\"type\":\"MetaGdalSource\",\"raster_type\":\""@;
            lemma_match_split(s, pos, head, spec_tag_text(m.raster_type));
        },
        MetaRasterOperator::Noop(m) => {
            let head = "{\"type\":\"MetaNoopOperator\",\"sources\":["@;
            let body = spec_encode_raster_list(m.sources@);
            lemma_match_split(s, pos, head + body, "]}"@);
            lemma_match_split(s, pos, head, body);
            assert(s.subrange(pos + head.len() + body.len(), pos + head.len() + body.len() + 2)[0]
                == s[pos + head.len() + body.len()]);
        },
        MetaRasterOperator::PlusOne(m) => {
            let head = "{\"type\":\"MetaPlusOneOperator\",\"sources\":["@;
            let body = spec_encode_raster_list(m.sources@);
            lemma_match_split(s, pos, head + body, "]}"@);
            lemma_match_split(s, pos, head, body);
            assert(s.subrange(pos + head.len() + body.len(), pos + head.len() + body.len() + 2)[0]
                == s[pos + head.len() + body.len()]);
        },
        MetaRasterOperator::AddRaster(m) => {
            let head = "{\"type\":\"MetaAddRasterOperator\",\"sources\":["@;
            let body = spec_encode_raster_list(m.sources@);
            lemma_match_split(s, pos, head + body, "]}"@);
            lemma_match_split(s, pos, head, body);
            assert(s.subrange(pos + head.len() + body.len(), pos + head.len() + body.len() + 2)[0]
                == s[pos + head.len() + body.len()]);
        },
    }
}

/// Parses one raster record at `pos`.  On success the consumed span is the
/// canonical record of the returned tree; and whenever some tree's record
/// stands at `pos`, parsing succeeds with a structurally equal tree ending
/// exactly where that record ends.
fn parse_raster_node(chars: &Vec<char>, pos: usize) -> (r: Option<(MetaRasterOperator, usize)>)
    requires
        pos <= chars@.len(),
    ensures
        r matches Some(p) ==> pos < p.1 <= chars@.len() && spec_match_lit(
            chars@,
            pos as int,
            spec_encode_raster(p.0),
        ) && p.1 == pos + spec_encode_raster(p.0).len(),
        forall|t: MetaRasterOperator| #[trigger]
            spec_raster_at(chars@, pos as int, t) ==> (r matches Some(p)
                && crate::meta_raster_operator::spec_raster_tree_eq(p.0, t) && p.1 == pos
                + spec_encode_raster(t).len()),
    decreases chars@.len() - pos, 0int,
{
    let s = Ghost(chars@);
    proof {
        reveal_strlit("{\"type\":\"MetaGdalSource\",\"raster_type\":\"");
        reveal_strlit("{\"type\":\"MetaNoopOperator\",\"sources\":[");
        reveal_strlit("{\"type\":\"MetaPlusOneOperator\",\"sources\":[");
        reveal_strlit("{\"type\":\"MetaAddRasterOperator\",\"sources\":[");
        reveal_strlit("]}");
        reveal_strlit("U8\"}");
        reveal_strlit("U16\"}");
        reveal_strlit("U32\"}");
        reveal_strlit("U64\"}");
        reveal_strlit("I16\"}");
        reveal_strlit("I32\"}");
        reveal_strlit("I64\"}");
        reveal_strlit("F32\"}");
        reveal_strlit("F64\"}");
    }
    if let Some(p1) = skip_lit(chars, pos, "{\"type\":\"MetaGdalSource\",\"raster_type\":\"") {
        match parse_tag(chars, p1) {
            Some((tag, p2)) => {
                let node = MetaRasterOperator::GdalSource(MetaGdalSource { raster_type: tag });
                proof {
                    lemma_match_join(
                        s@,
                        pos as int,
                        "{\"type\":\"MetaGdalSource\",\"raster_type\":\""@,
                        spec_tag_text(tag),
                    );
                    assert forall|t: MetaRasterOperator| #[trigger]
                        spec_raster_at(s@, pos as int, t) implies
                        crate::meta_raster_operator::spec_raster_tree_eq(node, t) && p2 == pos
                        + spec_encode_raster(t).len() by {
                        lemma_raster_at_parts(s@, pos as int, t);
                        match t {
                            MetaRasterOperator::GdalSource(m) => {
                            },
                            _ => {
                                lemma_raster_head_confusion(s@, pos as int);
                            },
                        }
                    }
                }
                Some((node, p2))
            },
            None => {
                proof {
                    assert forall|t: MetaRasterOperator| !spec_raster_at(s@, pos as int, t) by {
                        if spec_raster_at(s@, pos as int, t) {
                            lemma_raster_at_parts(s@, pos as int, t);
                            match t {
                                MetaRasterOperator::GdalSource(m) => {
                                },
                                _ => {
                                    lemma_raster_head_confusion(s@, pos as int);
                                },
                            }
                        }
                    }
                }
                None
            },
        }
    } else if let Some(p1) = skip_lit(chars, pos, "{\"type\":\"MetaNoopOperator\",\"sources\":[") {
        match parse_raster_list(chars, p1) {
            Some((list, p2)) => {
                if let Some(p3) = skip_lit(chars, p2, "]}") {
                    let node = MetaRasterOperator::Noop(MetaNoopOperator { sources: list });
                    proof {
                        let head = "{\"type\":\"MetaNoopOperator\",\"sources\":["@;
                        let body = spec_encode_raster_list(node->Noop_0.sources@);
                        lemma_match_join(s@, pos as int, head, body);
                        lemma_match_join(s@, pos as int, head + body, "]}"@);
                        assert forall|t: MetaRasterOperator| #[trigger]
                            spec_raster_at(s@, pos as int, t) implies
                            crate::meta_raster_operator::spec_raster_tree_eq(node, t) && p3 == pos
                            + spec_encode_raster(t).len() by {
                            lemma_raster_at_parts(s@, pos as int, t);
                            match t {
                                MetaRasterOperator::Noop(m) => {
                                },
                                _ => {
                                    lemma_raster_head_confusion(s@, pos as int);
                                },
                            }
                        }
                    }
                    return Some((node, p3));
                }
                proof {
                    assert forall|t: MetaRasterOperator| !spec_raster_at(s@, pos as int, t) by {
                        if spec_raster_at(s@, pos as int, t) {
                            lemma_raster_at_parts(s@, pos as int, t);
                            match t {
                                MetaRasterOperator::Noop(m) => {
                                },
                                _ => {
                                    lemma_raster_head_confusion(s@, pos as int);
                                },
                            }
                        }
                    }
                }
                None
            },
            None => {
                proof {
                    assert forall|t: MetaRasterOperator| !spec_raster_at(s@, pos as int, t) by {
                        if spec_raster_at(s@, pos as int, t) {
                            lemma_raster_at_parts(s@, pos as int, t);
                            match t {
                                MetaRasterOperator::Noop(m) => {
                                },
                                _ => {
                                    lemma_raster_head_confusion(s@, pos as int);
                                },
                            }
                        }
                    }
                }
                None
            },
        }
    } else if let Some(p1) = skip_lit(chars, pos, "{\"type\":\"MetaPlusOneOperator\",\"sources\":[") {
        match parse_raster_list(chars, p1) {
            Some((list, p2)) => {
                if let Some(p3) = skip_lit(chars, p2, "]}") {
                    let node = MetaRasterOperator::PlusOne(MetaPlusOneOperator { sources: list });
                    proof {
                        let head = "{\"type\":\"MetaPlusOneOperator\",\"sources\":["@;
                        let body = spec_encode_raster_list(node->PlusOne_0.sources@);
                        lemma_match_join(s@, pos as int, head, body);
                        lemma_match_join(s@, pos as int, head + body, "]}"@);
                        assert forall|t: MetaRasterOperator| #[trigger]
                            spec_raster_at(s@, pos as int, t) implies
                            crate::meta_raster_operator::spec_raster_tree_eq(node, t) && p3 == pos
                            + spec_encode_raster(t).len() by {
                            lemma_raster_at_parts(s@, pos as int, t);
                            match t {
                                MetaRasterOperator::PlusOne(m) => {
                                },
                                _ => {
                                    lemma_raster_head_confusion(s@, pos as int);
                                },
                            }
                        }
                    }
                    return Some((node, p3));
                }
                proof {
                    assert forall|t: MetaRasterOperator| !spec_raster_at(s@, pos as int, t) by {
                        if spec_raster_at(s@, pos as int, t) {
                            lemma_raster_at_parts(s@, pos as int, t);
                            match t {
                                MetaRasterOperator::PlusOne(m) => {
                                },
                                _ => {
                                    lemma_raster_head_confusion(s@, pos as int);
                                },
                            }
                        }
                    }
                }
                None
            },
            None => {
                proof {
                    assert forall|t: MetaRasterOperator| !spec_raster_at(s@, pos as int, t) by {
                        if spec_raster_at(s@, pos as int, t) {
                            lemma_raster_at_parts(s@, pos as int, t);
                            match t {
                                MetaRasterOperator::PlusOne(m) => {
                                },
                                _ => {
                                    lemma_raster_head_confusion(s@, pos as int);
                                },
                            }
                        }
                    }
                }
                None
            },
        }
    } else if let Some(p1) = skip_lit(chars, pos, "{\"type\":\"MetaAddRasterOperator\",\"sources\":[") {
        match parse_raster_list(chars, p1) {
            Some((list, p2)) => {
                if let Some(p3) = skip_lit(chars, p2, "]}") {
                    let node = MetaRasterOperator::AddRaster(
                        MetaAddRasterOperator { sources: list },
                    );
                    proof {
                        let head = "{\"type\":\"MetaAddRasterOperator\",\"sources\":["@;
                        let body = spec_encode_raster_list(node->AddRaster_0.sources@);
                        lemma_match_join(s@, pos as int, head, body);
                        lemma_match_join(s@, pos as int, head + body, "]}"@);
                        assert forall|t: MetaRasterOperator| #[trigger]
                            spec_raster_at(s@, pos as int, t) implies
                            crate::meta_raster_operator::spec_raster_tree_eq(node, t) && p3 == pos
                            + spec_encode_raster(t).len() by {
                            lemma_raster_at_parts(s@, pos as int, t);
                            match t {
                                MetaRasterOperator::AddRaster(m) => {
                                },
                                _ => {
                                    lemma_raster_head_confusion(s@, pos as int);
                                },
                            }
                        }
                    }
                    return Some((node, p3));
                }
                proof {
                    assert forall|t: MetaRasterOperator| !spec_raster_at(s@, pos as int, t) by {
                        if spec_raster_at(s@, pos as int, t) {
                            lemma_raster_at_parts(s@, pos as int, t);
                            match t {
                                MetaRasterOperator::AddRaster(m) => {
                                },
                                _ => {
                                    lemma_raster_head_confusion(s@, pos as int);
                                },
                            }
                        }
                    }
                }
                None
            },
            None => {
                proof {
                    assert forall|t: MetaRasterOperator| !spec_raster_at(s@, pos as int, t) by {
                        if spec_raster_at(s@, pos as int, t) {
                            lemma_raster_at_parts(s@, pos as int, t);
                            match t {
                                MetaRasterOperator::AddRaster(m) => {
                                },
                                _ => {
                                    lemma_raster_head_confusion(s@, pos as int);
                                },
                            }
                        }
                    }
                }
                None
            },
        }
    } else {
        proof {
            assert forall|t: MetaRasterOperator| !spec_raster_at(s@, pos as int, t) by {
                if spec_raster_at(s@, pos as int, t) {
                    lemma_raster_at_parts(s@, pos as int, t);
                }
            }
        }
        None
    }
}

/// The first character of a matched literal stands at the match position.
proof fn lemma_match_first(s: Seq<char>, pos: int, lit: Seq<char>)
    requires
        spec_match_lit(s, pos, lit),
        lit.len() >= 1,
    ensures
        s[pos] == lit[0],
{
    assert(s.subrange(pos, pos + lit.len())[0] == s[pos]);
}

/// A child list standing at `pos`, taken apart: what its first record is,
/// what follows it, and how the lengths add up.
proof fn lemma_raster_list_cases(s: Seq<char>, pos: int, l: Seq<MetaRasterOperator>)
    requires
        spec_raster_list_at(s, pos, l),
    ensures
        l.len() == 0 ==> s[pos] == ']',
        l.len() >= 1 ==> spec_raster_at(s, pos, l[0]) && s[pos] == '{',
        l.len() == 1 ==> spec_encode_raster_list(l).len() == spec_encode_raster(l[0]).len() && s[pos
            + spec_encode_raster(l[0]).len()] == ']',
        l.len() >= 2 ==> spec_encode_raster_list(l).len() == spec_encode_raster(l[0]).len() + 1
            + spec_encode_raster_list(l.drop_first()).len() && s[pos + spec_encode_raster(
            l[0],
        ).len()] == ',' && spec_raster_list_at(
            s,
            pos + spec_encode_raster(l[0]).len() + 1,
            l.drop_first(),
        ),
{
    reveal_strlit(",");
    if l.len() == 0 {
    } else if l.len() == 1 {
        lemma_raster_enc_opens(l[0]);
        lemma_match_first(s, pos, spec_encode_raster(l[0]));
    } else {
        let a = spec_encode_raster(l[0]);
        let b = ","@;
        let c = spec_encode_raster_list(l.drop_first());
        lemma_match_split(s, pos, a + b, c);
        lemma_match_split(s, pos, a, b);
        lemma_raster_enc_opens(l[0]);
        lemma_match_first(s, pos, a);
        lemma_match_first(s, pos + a.len(), b);
    }
}

/// Joining a first record, a comma and a tail list back into one matched
/// child list.
proof fn lemma_raster_list_assemble(
    s: Seq<char>,
    pos: int,
    t0: MetaRasterOperator,
    p1: int,
    v: Seq<MetaRasterOperator>,
    p2: int,
)
    requires
        v.len() >= 2,
        v[0] == t0,
        spec_match_lit(s, pos, spec_encode_raster(t0)),
        p1 == pos + spec_encode_raster(t0).len(),
        p1 < s.len(),
        s[p1] == ',',
        spec_match_lit(s, p1 + 1, spec_encode_raster_list(v.drop_first())),
        p2 == p1 + 1 + spec_encode_raster_list(v.drop_first()).len(),
    ensures
        spec_match_lit(s, pos, spec_encode_raster_list(v)),
        p2 == pos + spec_encode_raster_list(v).len(),
{
    reveal_strlit(",");
    assert(s.subrange(p1, p1 + 1) =~= ","@);
    lemma_match_join(s, pos, spec_encode_raster(t0), ","@);
    lemma_match_join(
        s,
        pos,
        spec_encode_raster(t0) + ","@,
        spec_encode_raster_list(v.drop_first()),
    );
}

/// Parses the comma-separated child records standing before a closing
/// bracket.  The bracket itself is left unconsumed for the caller.
fn parse_raster_list(chars: &Vec<char>, pos: usize) -> (r: Option<
    (Vec<MetaRasterOperator>, usize),
>)
    requires
        pos <= chars@.len(),
    ensures
        r matches Some(p) ==> pos <= p.1 <= chars@.len() && spec_match_lit(
            chars@,
            pos as int,
            spec_encode_raster_list(p.0@),
        ) && p.1 == pos + spec_encode_raster_list(p.0@).len(),
        forall|l: Seq<MetaRasterOperator>| #[trigger]
            spec_raster_list_at(chars@, pos as int, l) ==> (r matches Some(p)
                && spec_raster_list_eq(p.0@, l) && p.1 == pos + spec_encode_raster_list(l).len()),
    decreases chars@.len() - pos, 1int,
{
    let s = Ghost(chars@);
    if pos < chars.len() && chars[pos] == ']' {
        let v: Vec<MetaRasterOperator> = Vec::new();
        proof {
            assert(v@ =~= Seq::<MetaRasterOperator>::empty());
            assert(s@.subrange(pos as int, pos as int) =~= spec_encode_raster_list(v@));
            assert forall|l: Seq<MetaRasterOperator>| #[trigger]
                spec_raster_list_at(s@, pos as int, l) implies spec_raster_list_eq(v@, l) && pos
                == pos + spec_encode_raster_list(l).len() by {
                lemma_raster_list_cases(s@, pos as int, l);
            }
        }
        return Some((v, pos));
    }
    match parse_raster_node(chars, pos) {
        Some((t0, p1)) => {
            if p1 < chars.len() && chars[p1] == ',' {
                match parse_raster_list(chars, p1 + 1) {
                    Some((rest, p2)) => {
                        if rest.len() == 0 {
                            proof {
                                lemma_raster_enc_opens(t0);
                                lemma_match_first(s@, pos as int, spec_encode_raster(t0));
                                assert forall|l: Seq<MetaRasterOperator>| !spec_raster_list_at(
                                    s@,
                                    pos as int,
                                    l,
                                ) by {
                                    if spec_raster_list_at(s@, pos as int, l) {
                                        lemma_raster_list_cases(s@, pos as int, l);
                                        if l.len() >= 2 {
                                            lemma_raster_list_cases(
                                                s@,
                                                pos + spec_encode_raster(l[0]).len() + 1,
                                                l.drop_first(),
                                            );
                                        }
                                    }
                                }
                            }
                            return None;
                        }
                        let mut v = rest;
                        v.insert(0, t0);
                        proof {
                            lemma_raster_enc_opens(t0);
                            lemma_match_first(s@, pos as int, spec_encode_raster(t0));
                            assert(v@[0] == t0);
                            assert(v@.drop_first() =~= rest@);
                            lemma_raster_list_assemble(
                                s@,
                                pos as int,
                                t0,
                                p1 as int,
                                v@,
                                p2 as int,
                            );
                            assert forall|l: Seq<MetaRasterOperator>| #[trigger]
                                spec_raster_list_at(s@, pos as int, l) implies spec_raster_list_eq(
                                v@,
                                l,
                            ) && p2 == pos + spec_encode_raster_list(l).len() by {
                                lemma_raster_list_cases(s@, pos as int, l);
                            }
                        }
                        Some((v, p2))
                    },
                    None => {
                        proof {
                            lemma_raster_enc_opens(t0);
                            lemma_match_first(s@, pos as int, spec_encode_raster(t0));
                            assert forall|l: Seq<MetaRasterOperator>| !spec_raster_list_at(
                                s@,
                                pos as int,
                                l,
                            ) by {
                                if spec_raster_list_at(s@, pos as int, l) {
                                    lemma_raster_list_cases(s@, pos as int, l);
                                }
                            }
                        }
                        None
                    },
                }
            } else {
                let mut v: Vec<MetaRasterOperator> = Vec::new();
                v.push(t0);
                proof {
                    lemma_raster_enc_opens(t0);
                    lemma_match_first(s@, pos as int, spec_encode_raster(t0));
                    assert(v@ =~= seq![t0]);
                    assert forall|l: Seq<MetaRasterOperator>| #[trigger]
                        spec_raster_list_at(s@, pos as int, l) implies spec_raster_list_eq(v@, l)
                        && p1 == pos + spec_encode_raster_list(l).len() by {
                        lemma_raster_list_cases(s@, pos as int, l);
                    }
                }
                Some((v, p1))
            }
        },
        None => {
            proof {
                assert forall|l: Seq<MetaRasterOperator>| !spec_raster_list_at(
                    s@,
                    pos as int,
                    l,
                ) by {
                    if spec_raster_list_at(s@, pos as int, l) {
                        lemma_raster_list_cases(s@, pos as int, l);
                    }
                }
            }
            None
        },
    }
}

/// Whether the canonical record of the vector tree `t` stands at `pos`.
pub open spec fn spec_vector_at(s: Seq<char>, pos: int, t: MetaVectorOperator) -> bool {
    spec_match_lit(s, pos, spec_encode_vector(t))
}

/// Whether the canonical records of the vector list `l` stand at `pos`,
/// followed by the closing bracket that delimits every child list.
pub open spec fn spec_vector_list_at(s: Seq<char>, pos: int, l: Seq<MetaVectorOperator>) -> bool {
    &&& spec_match_lit(s, pos, spec_encode_vector_list(l))
    &&& pos + spec_encode_vector_list(l).len() < s.len()
    &&& s[pos + spec_encode_vector_list(l).len()] == ']'
}

/// Pointwise structural equality of two vector tree lists.
pub open spec fn spec_vector_list_eq(a: Seq<MetaVectorOperator>, b: Seq<MetaVectorOperator>) -> bool {
    a.len() == b.len() && (forall|i: int|
        0 <= i < a.len() ==> crate::meta_raster_operator::spec_vector_tree_eq(a[i], b[i]))
}

/// Every vector record opens with a brace.
proof fn lemma_vector_enc_opens(t: MetaVectorOperator)
    ensures
        spec_encode_vector(t).len() >= 1,
        spec_encode_vector(t)[0] == '{',
{
    reveal_strlit("{\"type\":\"MetaMyVectorSourceOperator\"}");
    reveal_strlit("{\"type\":\"MetaRasterVectorOperator\",\"raster_sources\":[");
}

/// The two vector kind headers never match at the same position: they
/// differ at the first character after the shared `Meta` prefix.
proof fn lemma_vector_head_confusion(s: Seq<char>, pos: int)
    ensures
        !(spec_match_lit(s, pos, "{\"type\":\"MetaMyVectorSourceOperator\"}"@) && spec_match_lit(
            s,
            pos,
            "{\"type\":\"MetaRasterVectorOperator\",\"raster_sources\":["@,
        )),
{
    reveal_strlit("{\"type\":\"MetaMyVectorSourceOperator\"}");
    reveal_strlit("{\"type\":\"MetaRasterVectorOperator\",\"raster_sources\":[");
    let a = "{\"type\":\"MetaMyVectorSourceOperator\"}"@;
    let b = "{\"type\":\"MetaRasterVectorOperator\",\"raster_sources\":["@;
    if spec_match_lit(s, pos, a) {
        assert(s.subrange(pos, pos + a.len())[13] == s[pos + 13]);
    }
    if spec_match_lit(s, pos, b) {
        assert(s.subrange(pos, pos + b.len())[13] == s[pos + 13]);
    }
}

/// The record of a vector tree, taken apart at `pos`: the kind's header,
/// the two child regions, and the closing characters all match in place.
proof fn lemma_vector_at_parts(s: Seq<char>, pos: int, t: MetaVectorOperator)
    requires
        spec_vector_at(s, pos, t),
    ensures
        t matches MetaVectorOperator::MyVectorSource(m) ==> spec_match_lit(
            s,
            pos,
            "{\"type\":\"MetaMyVectorSourceOperator\"}"@,
        ),
        t matches MetaVectorOperator::RasterVector(m) ==> {
            let head = "{\"type\":\"MetaRasterVectorOperator\",\"raster_sources\":["@;
            let mid = "],\"vector_sources\":["@;
            let rbody = spec_encode_raster_list(m.raster_sources@);
            let vbody = spec_encode_vector_list(m.vector_sources@);
            &&& spec_match_lit(s, pos, head)
            &&& spec_raster_list_at(s, pos + head.len(), m.raster_sources@)
            &&& spec_match_lit(s, pos + head.len() + rbody.len(), mid)
            &&& spec_vector_list_at(s, pos + head.len() + rbody.len() + mid.len(), m.vector_sources@)
            &&& spec_match_lit(
                s,
                pos + head.len() + rbody.len() + mid.len() + vbody.len(),
                "]}"@,
            )
            &&& spec_encode_vector(t).len() == head.len() + rbody.len() + mid.len() + vbody.len()
                + 2
        },
{
    reveal_strlit("],\"vector_sources\":[");
    reveal_strlit("]}");
    match t {
        MetaVectorOperator::MyVectorSource(m) => {
        },
        MetaVectorOperator::RasterVector(m) => {
            let head = "{\"type\":\"MetaRasterVectorOperator\",\"raster_sources\":["@;
            let mid = "],\"vector_sources\":["@;
            let rbody = spec_encode_raster_list(m.raster_sources@);
            let vbody = spec_encode_vector_list(m.vector_sources@);
            lemma_match_split(s, pos, head + rbody + mid + vbody, "]}"@);
            lemma_match_split(s, pos, head + rbody + mid, vbody);
            lemma_match_split(s, pos, head + rbody, mid);
            lemma_match_split(s, pos, head, rbody);
            lemma_match_first(s, pos + head.len() + rbody.len(), mid);
            lemma_match_first(s, pos + head.len() + rbody.len() + mid.len() + vbody.len(), "]}"@);
        },
    }
}

/// A vector child list standing at `pos`, taken apart: what its first
/// record is, what follows it, and how the lengths add up.
proof fn lemma_vector_list_cases(s: Seq<char>, pos: int, l: Seq<MetaVectorOperator>)
    requires
        spec_vector_list_at(s, pos, l),
    ensures
        l.len() == 0 ==> s[pos] == ']',
        l.len() >= 1 ==> spec_vector_at(s, pos, l[0]) && s[pos] == '{',
        l.len() == 1 ==> spec_encode_vector_list(l).len() == spec_encode_vector(l[0]).len() && s[pos
            + spec_encode_vector(l[0]).len()] == ']',
        l.len() >= 2 ==> spec_encode_vector_list(l).len() == spec_encode_vector(l[0]).len() + 1
            + spec_encode_vector_list(l.drop_first()).len() && s[pos + spec_encode_vector(
            l[0],
        ).len()] == ',' && spec_vector_list_at(
            s,
            pos + spec_encode_vector(l[0]).len() + 1,
            l.drop_first(),
        ),
{
    reveal_strlit(",");
    if l.len() == 0 {
    } else if l.len() == 1 {
        lemma_vector_enc_opens(l[0]);
        lemma_match_first(s, pos, spec_encode_vector(l[0]));
    } else {
        let a = spec_encode_vector(l[0]);
        let b = ","@;
        let c = spec_encode_vector_list(l.drop_first());
        lemma_match_split(s, pos, a + b, c);
        lemma_match_split(s, pos, a, b);
        lemma_vector_enc_opens(l[0]);
        lemma_match_first(s, pos, a);
        lemma_match_first(s, pos + a.len(), b);
    }
}

/// Joining a first record, a comma and a tail list back into one matched
/// vector child list.
proof fn lemma_vector_list_assemble(
    s: Seq<char>,
    pos: int,
    t0: MetaVectorOperator,
    p1: int,
    v: Seq<MetaVectorOperator>,
    p2: int,
)
    requires
        v.len() >= 2,
        v[0] == t0,
        spec_match_lit(s, pos, spec_encode_vector(t0)),
        p1 == pos + spec_encode_vector(t0).len(),
        p1 < s.len(),
        s[p1] == ',',
        spec_match_lit(s, p1 + 1, spec_encode_vector_list(v.drop_first())),
        p2 == p1 + 1 + spec_encode_vector_list(v.drop_first()).len(),
    ensures
        spec_match_lit(s, pos, spec_encode_vector_list(v)),
        p2 == pos + spec_encode_vector_list(v).len(),
{
    reveal_strlit(",");
    assert(s.subrange(p1, p1 + 1) =~= ","@);
    lemma_match_join(s, pos, spec_encode_vector(t0), ","@);
    lemma_match_join(
        s,
        pos,
        spec_encode_vector(t0) + ","@,
        spec_encode_vector_list(v.drop_first()),
    );
}

/// Parses one vector record at `pos`.  On success the consumed span is the
/// canonical record of the returned tree; and whenever some tree's record
/// stands at `pos`, parsing succeeds with a structurally equal tree ending
/// exactly where that record ends.
fn parse_vector_node(chars: &Vec<char>, pos: usize) -> (r: Option<(MetaVectorOperator, usize)>)
    requires
        pos <= chars@.len(),
    ensures
        r matches Some(p) ==> pos < p.1 <= chars@.len() && spec_match_lit(
            chars@,
            pos as int,
            spec_encode_vector(p.0),
        ) && p.1 == pos + spec_encode_vector(p.0).len(),
        forall|t: MetaVectorOperator| #[trigger]
            spec_vector_at(chars@, pos as int, t) ==> (r matches Some(p)
                && crate::meta_raster_operator::spec_vector_tree_eq(p.0, t) && p.1 == pos
                + spec_encode_vector(t).len()),
    decreases chars@.len() - pos, 0int,
{
    let s = Ghost(chars@);
    proof {
        reveal_strlit("{\"type\":\"MetaMyVectorSourceOperator\"}");
        reveal_strlit("{\"type\":\"MetaRasterVectorOperator\",\"raster_sources\":[");
        reveal_strlit("],\"vector_sources\":[");
        reveal_strlit("]}");
    }
    if let Some(p1) = skip_lit(chars, pos, "{\"type\":\"MetaMyVectorSourceOperator\"}") {
        let node = MetaVectorOperator::MyVectorSource(MetaMyVectorSourceOperator {  });
        proof {
            assert forall|t: MetaVectorOperator| #[trigger]
                spec_vector_at(s@, pos as int, t) implies
                crate::meta_raster_operator::spec_vector_tree_eq(node, t) && p1 == pos
                + spec_encode_vector(t).len() by {
                lemma_vector_at_parts(s@, pos as int, t);
                match t {
                    MetaVectorOperator::MyVectorSource(m) => {
                    },
                    _ => {
                        lemma_vector_head_confusion(s@, pos as int);
                    },
                }
            }
        }
        Some((node, p1))
    } else if let Some(p1) = skip_lit(
        chars,
        pos,
        "{\"type\":\"MetaRasterVectorOperator\",\"raster_sources\":[",
    ) {
        match parse_raster_list(chars, p1) {
            Some((rl, p2)) => {
                if let Some(p3) = skip_lit(chars, p2, "],\"vector_sources\":[") {
                    match parse_vector_list(chars, p3) {
                        Some((vl, p4)) => {
                            if let Some(p5) = skip_lit(chars, p4, "]}") {
                                let node = MetaVectorOperator::RasterVector(
                                    MetaRasterVectorOperator {
                                        raster_sources: rl,
                                        vector_sources: vl,
                                    },
                                );
                                proof {
                                    let head =
                                        "{\"type\":\"MetaRasterVectorOperator\",\"raster_sources\":["@;
                                    let mid = "],\"vector_sources\":["@;
                                    let rbody = spec_encode_raster_list(
                                        node->RasterVector_0.raster_sources@,
                                    );
                                    let vbody = spec_encode_vector_list(
                                        node->RasterVector_0.vector_sources@,
                                    );
                                    lemma_match_join(s@, pos as int, head, rbody);
                                    lemma_match_join(s@, pos as int, head + rbody, mid);
                                    lemma_match_join(s@, pos as int, head + rbody + mid, vbody);
                                    lemma_match_join(
                                        s@,
                                        pos as int,
                                        head + rbody + mid + vbody,
                                        "]}"@,
                                    );
                                    assert forall|t: MetaVectorOperator| #[trigger]
                                        spec_vector_at(s@, pos as int, t) implies
                                        crate::meta_raster_operator::spec_vector_tree_eq(node, t)
                                        && p5 == pos + spec_encode_vector(t).len() by {
                                        lemma_vector_at_parts(s@, pos as int, t);
                                        match t {
                                            MetaVectorOperator::RasterVector(m) => {
                                            },
                                            _ => {
                                                lemma_vector_head_confusion(s@, pos as int);
                                            },
                                        }
                                    }
                                }
                                return Some((node, p5));
                            }
                            proof {
                                assert forall|t: MetaVectorOperator| !spec_vector_at(
                                    s@,
                                    pos as int,
                                    t,
                                ) by {
                                    if spec_vector_at(s@, pos as int, t) {
                                        lemma_vector_at_parts(s@, pos as int, t);
                                        match t {
                                            MetaVectorOperator::RasterVector(m) => {
                                            },
                                            _ => {
                                                lemma_vector_head_confusion(s@, pos as int);
                                            },
                                        }
                                    }
                                }
                            }
                            return None;
                        },
                        None => {
                            proof {
                                assert forall|t: MetaVectorOperator| !spec_vector_at(
                                    s@,
                                    pos as int,
                                    t,
                                ) by {
                                    if spec_vector_at(s@, pos as int, t) {
                                        lemma_vector_at_parts(s@, pos as int, t);
                                        match t {
                                            MetaVectorOperator::RasterVector(m) => {
                                            },
                                            _ => {
                                                lemma_vector_head_confusion(s@, pos as int);
                                            },
                                        }
                                    }
                                }
                            }
                            return None;
                        },
                    }
                }
                proof {
                    assert forall|t: MetaVectorOperator| !spec_vector_at(s@, pos as int, t) by {
                        if spec_vector_at(s@, pos as int, t) {
                            lemma_vector_at_parts(s@, pos as int, t);
                            match t {
                                MetaVectorOperator::RasterVector(m) => {
                                },
                                _ => {
                                    lemma_vector_head_confusion(s@, pos as int);
                                },
                            }
                        }
                    }
                }
                None
            },
            None => {
                proof {
                    assert forall|t: MetaVectorOperator| !spec_vector_at(s@, pos as int, t) by {
                        if spec_vector_at(s@, pos as int, t) {
                            lemma_vector_at_parts(s@, pos as int, t);
                            match t {
                                MetaVectorOperator::RasterVector(m) => {
                                },
                                _ => {
                                    lemma_vector_head_confusion(s@, pos as int);
                                },
                            }
                        }
                    }
                }
                None
            },
        }
    } else {
        proof {
            assert forall|t: MetaVectorOperator| !spec_vector_at(s@, pos as int, t) by {
                if spec_vector_at(s@, pos as int, t) {
                    lemma_vector_at_parts(s@, pos as int, t);
                }
            }
        }
        None
    }
}

/// Parses the comma-separated vector child records standing before a
/// closing bracket.  The bracket itself is left unconsumed for the caller.
fn parse_vector_list(chars: &Vec<char>, pos: usize) -> (r: Option<(Vec<MetaVectorOperator>, usize)>)
    requires
        pos <= chars@.len(),
    ensures
        r matches Some(p) ==> pos <= p.1 <= chars@.len() && spec_match_lit(
            chars@,
            pos as int,
            spec_encode_vector_list(p.0@),
        ) && p.1 == pos + spec_encode_vector_list(p.0@).len(),
        forall|l: Seq<MetaVectorOperator>| #[trigger]
            spec_vector_list_at(chars@, pos as int, l) ==> (r matches Some(p)
                && spec_vector_list_eq(p.0@, l) && p.1 == pos + spec_encode_vector_list(l).len()),
    decreases chars@.len() - pos, 1int,
{
    let s = Ghost(chars@);
    if pos < chars.len() && chars[pos] == ']' {
        let v: Vec<MetaVectorOperator> = Vec::new();
        proof {
            assert(v@ =~= Seq::<MetaVectorOperator>::empty());
            assert(s@.subrange(pos as int, pos as int) =~= spec_encode_vector_list(v@));
            assert forall|l: Seq<MetaVectorOperator>| #[trigger]
                spec_vector_list_at(s@, pos as int, l) implies spec_vector_list_eq(v@, l) && pos
                == pos + spec_encode_vector_list(l).len() by {
                lemma_vector_list_cases(s@, pos as int, l);
            }
        }
        return Some((v, pos));
    }
    match parse_vector_node(chars, pos) {
        Some((t0, p1)) => {
            if p1 < chars.len() && chars[p1] == ',' {
                match parse_vector_list(chars, p1 + 1) {
                    Some((rest, p2)) => {
                        if rest.len() == 0 {
                            proof {
                                lemma_vector_enc_opens(t0);
                                lemma_match_first(s@, pos as int, spec_encode_vector(t0));
                                assert forall|l: Seq<MetaVectorOperator>| !spec_vector_list_at(
                                    s@,
                                    pos as int,
                                    l,
                                ) by {
                                    if spec_vector_list_at(s@, pos as int, l) {
                                        lemma_vector_list_cases(s@, pos as int, l);
                                        if l.len() >= 2 {
                                            lemma_vector_list_cases(
                                                s@,
                                                pos + spec_encode_vector(l[0]).len() + 1,
                                                l.drop_first(),
                                            );
                                        }
                                    }
                                }
                            }
                            return None;
                        }
                        let mut v = rest;
                        v.insert(0, t0);
                        proof {
                            lemma_vector_enc_opens(t0);
                            lemma_match_first(s@, pos as int, spec_encode_vector(t0));
                            assert(v@[0] == t0);
                            assert(v@.drop_first() =~= rest@);
                            lemma_vector_list_assemble(
                                s@,
                                pos as int,
                                t0,
                                p1 as int,
                                v@,
                                p2 as int,
                            );
                            assert forall|l: Seq<MetaVectorOperator>| #[trigger]
                                spec_vector_list_at(s@, pos as int, l) implies spec_vector_list_eq(
                                v@,
                                l,
                            ) && p2 == pos + spec_encode_vector_list(l).len() by {
                                lemma_vector_list_cases(s@, pos as int, l);
                            }
                        }
                        Some((v, p2))
                    },
                    None => {
                        proof {
                            lemma_vector_enc_opens(t0);
                            lemma_match_first(s@, pos as int, spec_encode_vector(t0));
                            assert forall|l: Seq<MetaVectorOperator>| !spec_vector_list_at(
                                s@,
                                pos as int,
                                l,
                            ) by {
                                if spec_vector_list_at(s@, pos as int, l) {
                                    lemma_vector_list_cases(s@, pos as int, l);
                                }
                            }
                        }
                        None
                    },
                }
            } else {
                let mut v: Vec<MetaVectorOperator> = Vec::new();
                v.push(t0);
                proof {
                    lemma_vector_enc_opens(t0);
                    lemma_match_first(s@, pos as int, spec_encode_vector(t0));
                    assert(v@ =~= seq![t0]);
                    assert forall|l: Seq<MetaVectorOperator>| #[trigger]
                        spec_vector_list_at(s@, pos as int, l) implies spec_vector_list_eq(v@, l)
                        && p1 == pos + spec_encode_vector_list(l).len() by {
                        lemma_vector_list_cases(s@, pos as int, l);
                    }
                }
                Some((v, p1))
            }
        },
        None => {
            proof {
                assert forall|l: Seq<MetaVectorOperator>| !spec_vector_list_at(
                    s@,
                    pos as int,
                    l,
                ) by {
                    if spec_vector_list_at(s@, pos as int, l) {
                        lemma_vector_list_cases(s@, pos as int, l);
                    }
                }
            }
            None
        },
    }
}

/// Serializes a raster node tree to its canonical persisted text.
pub fn raster_graph_to_json(t: &MetaRasterOperator) -> (s: String)
    ensures
        s@ == spec_encode_raster(*t),
{
    let mut out = String::new();
    append_raster(&mut out, t);
    out
}

/// Serializes a vector node tree to its canonical persisted text.
pub fn vector_graph_to_json(t: &MetaVectorOperator) -> (s: String)
    ensures
        s@ == spec_encode_vector(*t),
{
    let mut out = String::new();
    append_vector(&mut out, t);
    out
}

/// Deserializes a raster node tree from its persisted text.  Exactly the
/// canonical texts decode: decoding the text of any tree succeeds with a
/// structurally equal tree — which resolves identically, by
/// `lemma_raster_tree_eq_resolution` — and every other text, an unknown
/// discriminator among them, is a decode failure.
pub fn raster_graph_from_json(s: &str) -> (r: Result<MetaRasterOperator, EngineError>)
    ensures
        r matches Ok(t) ==> s@ == spec_encode_raster(t),
        forall|t: MetaRasterOperator| s@ == spec_encode_raster(t) ==> (r matches Ok(t2)
            && crate::meta_raster_operator::spec_raster_tree_eq(t2, t)),
        r matches Err(e) ==> e == EngineError::DecodeError,
{
    let chars = to_char_vec(s);
    match parse_raster_node(&chars, 0) {
        Some((t, p)) => {
            if p == chars.len() {
                proof {
                    assert(chars@.subrange(0, p as int) =~= chars@);
                    assert forall|t2: MetaRasterOperator| s@ == #[trigger] spec_encode_raster(
                        t2,
                    ) implies spec_raster_at(chars@, 0, t2) by {
                        assert(chars@.subrange(0, spec_encode_raster(t2).len() as int) =~= chars@);
                    }
                }
                Ok(t)
            } else {
                proof {
                    assert forall|t2: MetaRasterOperator| s@ != spec_encode_raster(t2) by {
                        if s@ == spec_encode_raster(t2) {
                            assert(chars@.subrange(0, spec_encode_raster(t2).len() as int)
                                =~= chars@);
                            assert(spec_raster_at(chars@, 0, t2));
                        }
                    }
                }
                Err(EngineError::DecodeError)
            }
        },
        None => {
            proof {
                assert forall|t2: MetaRasterOperator| s@ != spec_encode_raster(t2) by {
                    if s@ == spec_encode_raster(t2) {
                        assert(chars@.subrange(0, spec_encode_raster(t2).len() as int) =~= chars@);
                        assert(spec_raster_at(chars@, 0, t2));
                    }
                }
            }
            Err(EngineError::DecodeError)
        },
    }
}

/// Deserializes a vector node tree from its persisted text, under the same
/// contract as the raster decoder: exactly the canonical texts decode, to
/// a structurally equal tree.
pub fn vector_graph_from_json(s: &str) -> (r: Result<MetaVectorOperator, EngineError>)
    ensures
        r matches Ok(t) ==> s@ == spec_encode_vector(t),
        forall|t: MetaVectorOperator| s@ == spec_encode_vector(t) ==> (r matches Ok(t2)
            && crate::meta_raster_operator::spec_vector_tree_eq(t2, t)),
        r matches Err(e) ==> e == EngineError::DecodeError,
{
    let chars = to_char_vec(s);
    match parse_vector_node(&chars, 0) {
        Some((t, p)) => {
            if p == chars.len() {
                proof {
                    assert(chars@.subrange(0, p as int) =~= chars@);
                    assert forall|t2: MetaVectorOperator| s@ == #[trigger] spec_encode_vector(
                        t2,
                    ) implies spec_vector_at(chars@, 0, t2) by {
                        assert(chars@.subrange(0, spec_encode_vector(t2).len() as int) =~= chars@);
                    }
                }
                Ok(t)
            } else {
                proof {
                    assert forall|t2: MetaVectorOperator| s@ != spec_encode_vector(t2) by {
                        if s@ == spec_encode_vector(t2) {
                            assert(chars@.subrange(0, spec_encode_vector(t2).len() as int)
                                =~= chars@);
                            assert(spec_vector_at(chars@, 0, t2));
                        }
                    }
                }
                Err(EngineError::DecodeError)
            }
        },
        None => {
            proof {
                assert forall|t2: MetaVectorOperator| s@ != spec_encode_vector(t2) by {
                    if s@ == spec_encode_vector(t2) {
                        assert(chars@.subrange(0, spec_encode_vector(t2).len() as int) =~= chars@);
                        assert(spec_vector_at(chars@, 0, t2));
                    }
                }
            }
            Err(EngineError::DecodeError)
        },
    }
}

} // verus!
