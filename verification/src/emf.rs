//! Shaping a snapshot for an embedded-metric-format consumer.
//!
//! A serialized snapshot is a tree of groups — one per device plus the
//! aggregate — each holding named values.  [`build_emf`] flattens that tree
//! into one document: a metric directive listing every flattened name with
//! its unit, and one single-entry value object per flattened name.  The
//! unit of a metric is derived from the (ASCII-lowered) suffix of its key.

use vstd::prelude::*;
use vstd::string::StringExecFns;
use vstd::string::StringSliceAdditionalSpecFns;
use vstd::utf8::encode_utf8;

verus! {

/// ASCII lowering of one byte: the letters `A` through `Z` move down into
/// `a` through `z`, everything else is unchanged.
pub open spec fn lower_byte(b: u8) -> u8 {
    if 65 <= b <= 90 {
        (b + 32) as u8
    } else {
        b
    }
}

/// ASCII lowering of a byte string.
pub open spec fn lowered(s: Seq<u8>) -> Seq<u8> {
    s.map_values(|b: u8| lower_byte(b))
}

/// Whether `s` ends with `suffix`.
pub open spec fn has_suffix(s: Seq<u8>, suffix: Seq<u8>) -> bool {
    suffix.len() <= s.len() && s.skip(s.len() - suffix.len()) == suffix
}

/// The byte string `_bytes`.
pub open spec fn suffix_bytes() -> Seq<u8> {
    seq!['_' as u8, 'b' as u8, 'y' as u8, 't' as u8, 'e' as u8, 's' as u8]
}

/// The byte string `_bytes_count`.
pub open spec fn suffix_bytes_count() -> Seq<u8> {
    seq!['_' as u8, 'b' as u8, 'y' as u8, 't' as u8, 'e' as u8, 's' as u8, '_' as u8, 'c' as u8, 'o' as u8, 'u' as u8, 'n' as u8, 't' as u8]
}

/// The byte string `_ms`.
pub open spec fn suffix_ms() -> Seq<u8> {
    seq!['_' as u8, 'm' as u8, 's' as u8]
}

/// The byte string `_us`.
pub open spec fn suffix_us() -> Seq<u8> {
    seq!['_' as u8, 'u' as u8, 's' as u8]
}

/// The unit a metric key's suffix announces, on the key's ASCII-lowered
/// bytes: byte counts, millisecond and microsecond durations, and plain
/// counts for everything else.
pub open spec fn unit_of(key: Seq<u8>) -> Seq<char> {
    let l = lowered(key);
    if has_suffix(l, suffix_bytes()) || has_suffix(l, suffix_bytes_count()) {
        "Bytes"@
    } else if has_suffix(l, suffix_ms()) {
        "Milliseconds"@
    } else if has_suffix(l, suffix_us()) {
        "Microseconds"@
    } else {
        "Count"@
    }
}

/// One flattened metric value, as a single-entry named map.
pub struct EMFMetrics {
    /// The one entry: the flattened metric name and its value.
    pub inner: Vec<(String, u64)>,
}

/// The name and unit of one metric in the directive.
pub struct EmfMetricDef {
    /// Flattened metric name: `<group>.<key>`.
    pub name: String,
    /// Unit derived from the key's suffix.
    pub unit: String,
}

/// The flattened document handed to an embedded-metric-format consumer.
pub struct EmfDocument {
    /// Timestamp of the snapshot, in wall-clock milliseconds.
    pub timestamp: u64,
    /// Namespace the metrics are filed under.
    pub namespace: String,
    /// Dimension sets of the directive.
    pub dimensions: Vec<Vec<String>>,
    /// Identifier of the emitting sandbox.
    pub sandbox_id: u64,
    /// Every flattened metric's name and unit.
    pub metric_defs: Vec<EmfMetricDef>,
    /// Every flattened metric's value, one single-entry object each.
    pub metrics: Vec<EMFMetrics>,
}

/// The flattened entries of one group, in key order: the dotted name, the
/// bare key, and the value.
pub open spec fn group_entries(g: (String, Vec<(String, u64)>)) -> Seq<(Seq<char>, Seq<char>, u64)> {
    g.1@.map_values(|kv: (String, u64)| (g.0@ + "."@ + kv.0@, kv.0@, kv.1))
}

/// All flattened entries of a snapshot, group order preserved.
pub open spec fn flat_entries(groups: Seq<(String, Vec<(String, u64)>)>) -> Seq<
    (Seq<char>, Seq<char>, u64),
>
    decreases groups.len(),
{
    if groups.len() == 0 {
        Seq::empty()
    } else {
        flat_entries(groups.drop_last()) + group_entries(groups.last())
    }
}

/// Whether `defs` and `vals` list exactly the flattened entries `fe`: the
/// dotted name with the unit of its key, and a single-entry value object.
pub open spec fn emf_rows_match(
    fe: Seq<(Seq<char>, Seq<char>, u64)>,
    defs: Seq<EmfMetricDef>,
    vals: Seq<EMFMetrics>,
) -> bool {
    &&& defs.len() == fe.len()
    &&& vals.len() == fe.len()
    &&& (forall|i: int|
        0 <= i < fe.len() ==> {
            &&& defs[i].name@ == fe[i].0
            &&& defs[i].unit@ == unit_of(encode_utf8(fe[i].1))
            &&& vals[i].inner@.len() == 1
            &&& vals[i].inner@[0].0@ == fe[i].0
            &&& vals[i].inner@[0].1 == fe[i].2
        })
}

/// ASCII-lowers one byte.
fn lower_byte_exec(b: u8) -> (r: u8)
    ensures
        r == lower_byte(b),
{
    if b >= 65 && b <= 90 {
        b + 32
    } else {
        b
    }
}

/// ASCII-lowers a byte string.
fn lowered_bytes(s: &[u8]) -> (r: Vec<u8>)
    ensures
        r@ == lowered(s@),
{
    let mut r: Vec<u8> = Vec::new();
    let n = s.len();
    let mut i: usize = 0;
    while i < n
        invariant
            i <= n,
            n == s@.len(),
            r@.len() == i,
            forall|k: int| 0 <= k < i ==> r@[k] == lower_byte(s@[k]),
        decreases n - i,
    {
        r.push(lower_byte_exec(s[i]));
        i += 1;
    }
    proof {
        assert(r@ =~= lowered(s@));
    }
    r
}

/// Whether `s` ends with `suffix`, on concrete byte strings.
fn has_suffix_exec(s: &Vec<u8>, suffix: &Vec<u8>) -> (b: bool)
    ensures
        b == has_suffix(s@, suffix@),
{
    let n = s.len();
    let m = suffix.len();
    if m > n {
        return false;
    }
    let mut j: usize = 0;
    while j < m
        invariant
            j <= m,
            m <= n,
            n == s@.len(),
            m == suffix@.len(),
            forall|k: int| 0 <= k < j ==> s@[n - m + k] == suffix@[k],
        decreases m - j,
    {
        if s[n - m + j] != suffix[j] {
            proof {
                assert(s@.skip(n - m)[j as int] == s@[n - m + j]);
            }
            return false;
        }
        j += 1;
    }
    proof {
        assert(s@.skip(n - m) =~= suffix@);
    }
    true
}

/// The unit a metric key's suffix announces; see [`unit_of`].
pub fn get_unit(key: &str) -> (u: String)
    ensures
        u@ == unit_of(key.spec_bytes()),
{
    let low = lowered_bytes(key.as_bytes());

    let mut s_bytes: Vec<u8> = Vec::new();
    s_bytes.push('_' as u8);
    s_bytes.push('b' as u8);
    s_bytes.push('y' as u8);
    s_bytes.push('t' as u8);
    s_bytes.push('e' as u8);
    s_bytes.push('s' as u8);
    proof {
        assert(s_bytes@ =~= suffix_bytes());
    }

    let mut s_bytes_count: Vec<u8> = Vec::new();
    s_bytes_count.push('_' as u8);
    s_bytes_count.push('b' as u8);
    s_bytes_count.push('y' as u8);
    s_bytes_count.push('t' as u8);
    s_bytes_count.push('e' as u8);
    s_bytes_count.push('s' as u8);
    s_bytes_count.push('_' as u8);
    s_bytes_count.push('c' as u8);
    s_bytes_count.push('o' as u8);
    s_bytes_count.push('u' as u8);
    s_bytes_count.push('n' as u8);
    s_bytes_count.push('t' as u8);
    proof {
        assert(s_bytes_count@ =~= suffix_bytes_count());
    }

    let mut s_ms: Vec<u8> = Vec::new();
    s_ms.push('_' as u8);
    s_ms.push('m' as u8);
    s_ms.push('s' as u8);
    proof {
        assert(s_ms@ =~= suffix_ms());
    }

    let mut s_us: Vec<u8> = Vec::new();
    s_us.push('_' as u8);
    s_us.push('u' as u8);
    s_us.push('s' as u8);
    proof {
        assert(s_us@ =~= suffix_us());
    }

    if has_suffix_exec(&low, &s_bytes) || has_suffix_exec(&low, &s_bytes_count) {
        "Bytes".to_owned()
    } else if has_suffix_exec(&low, &s_ms) {
        "Milliseconds".to_owned()
    } else if has_suffix_exec(&low, &s_us) {
        "Microseconds".to_owned()
    } else {
        "Count".to_owned()
    }
}

/// Joins a group name and a metric key with a dot.
fn dotted(group: &str, key: &str) -> (r: String)
    ensures
        r@ == group@ + "."@ + key@,
{
    let mut r: String = group.to_owned();
    r.append(".");
    r.append(key);
    proof {
        assert(r@ =~= group@ + "."@ + key@);
    }
    r
}

/// Builds the flattened document for one snapshot: `ts` is the snapshot's
/// timestamp in milliseconds, `groups` its named groups of named values.
pub fn build_emf(ts: u64, groups: &Vec<(String, Vec<(String, u64)>)>) -> (doc: EmfDocument)
    ensures
        doc.timestamp == ts,
        doc.namespace@ == "TestNs"@,
        doc.sandbox_id == 1234,
        doc.dimensions@.len() == 1,
        doc.dimensions@[0]@.len() == 1,
        doc.dimensions@[0]@[0]@ == "Sandbox"@,
        emf_rows_match(flat_entries(groups@), doc.metric_defs@, doc.metrics@),
{
    let mut metric_defs: Vec<EmfMetricDef> = Vec::new();
    let mut metrics: Vec<EMFMetrics> = Vec::new();
    let gn = groups.len();
    let mut gi: usize = 0;
    while gi < gn
        invariant
            gi <= gn,
            gn == groups@.len(),
            emf_rows_match(flat_entries(groups@.take(gi as int)), metric_defs@, metrics@),
        decreases gn - gi,
    {
        let g = &groups[gi];
        let ghost fe_pref = flat_entries(groups@.take(gi as int));
        let kn = g.1.len();
        let mut ki: usize = 0;
        while ki < kn
            invariant
                ki <= kn,
                gi < gn,
                gn == groups@.len(),
                kn == g.1@.len(),
                g == &groups@[gi as int],
                fe_pref == flat_entries(groups@.take(gi as int)),
                emf_rows_match(
                    fe_pref + group_entries(*g).take(ki as int),
                    metric_defs@,
                    metrics@,
                ),
            decreases kn - ki,
        {
            let name = dotted(g.0.as_str(), g.1[ki].0.as_str());
            let unit = get_unit(g.1[ki].0.as_str());
            let value = g.1[ki].1;
            metric_defs.push(EmfMetricDef { name: name.clone(), unit });
            let mut inner: Vec<(String, u64)> = Vec::new();
            inner.push((name, value));
            metrics.push(EMFMetrics { inner });
            proof {
                assert(group_entries(*g).take(ki + 1) =~= group_entries(*g).take(ki as int).push(
                    group_entries(*g)[ki as int],
                ));
                assert(fe_pref + group_entries(*g).take(ki + 1) =~= (fe_pref + group_entries(
                    *g,
                ).take(ki as int)).push(group_entries(*g)[ki as int]));
            }
            ki += 1;
        }
        proof {
            assert(groups@.take(gi + 1).drop_last() =~= groups@.take(gi as int));
            assert(group_entries(*g).take(kn as int) =~= group_entries(*g));
        }
        gi += 1;
    }
    proof {
        assert(groups@.take(gn as int) =~= groups@);
    }
    let mut dim_inner: Vec<String> = Vec::new();
    dim_inner.push("Sandbox".to_owned());
    let mut dimensions: Vec<Vec<String>> = Vec::new();
    dimensions.push(dim_inner);
    EmfDocument {
        timestamp: ts,
        namespace: "TestNs".to_owned(),
        dimensions,
        sandbox_id: 1234,
        metric_defs,
        metrics,
    }
}

} // verus!
