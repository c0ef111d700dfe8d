//! Query strings: reading the pairs of a raw query, merging configured
//! parameters into them, and writing them back as text. Keys and values are
//! taken and written as they stand: no percent-decoding or -encoding.

use vstd::prelude::*;
use vstd::string::*;

verus! {

/// The pairs of a query text under way: `s` is the rest of the text, `key`
/// and `val` the pair being read, `in_val` whether its `=` was seen. Pieces
/// are separated by `&`; empty pieces give no pair; a piece without `=` has
/// an empty value.
pub open spec fn pairs_from(
    s: Seq<char>,
    key: Seq<char>,
    val: Seq<char>,
    in_val: bool,
) -> Seq<(Seq<char>, Seq<char>)>
    decreases s.len(),
{
    let done: Seq<(Seq<char>, Seq<char>)> = if key.len() == 0 && !in_val {
        seq![]
    } else {
        seq![(key, val)]
    };
    if s.len() == 0 {
        done
    } else if s[0] == '&' {
        done + pairs_from(s.drop_first(), seq![], seq![], false)
    } else if s[0] == '=' && !in_val {
        pairs_from(s.drop_first(), key, val, true)
    } else if in_val {
        pairs_from(s.drop_first(), key, val.push(s[0]), true)
    } else {
        pairs_from(s.drop_first(), key.push(s[0]), val, false)
    }
}

/// The pairs of a query text.
pub open spec fn query_pairs(s: Seq<char>) -> Seq<(Seq<char>, Seq<char>)> {
    pairs_from(s, seq![], seq![], false)
}

/// The pairs that configured parameters stand for: each key with each of
/// its values, in declaration order.
pub open spec fn config_pairs(cfg: Seq<(Seq<char>, Seq<Seq<char>>)>) -> Seq<(Seq<char>, Seq<char>)>
    decreases cfg.len(),
{
    if cfg.len() == 0 {
        seq![]
    } else {
        cfg[0].1.map_values(|v: Seq<char>| (cfg[0].0, v)) + config_pairs(cfg.drop_first())
    }
}

/// The query of a request: the endpoint's own pairs, then the configured ones.
pub open spec fn merged(raw: Seq<(Seq<char>, Seq<char>)>, cfg: Seq<(Seq<char>, Seq<Seq<char>>)>) -> Seq<(Seq<char>, Seq<char>)> {
    raw + config_pairs(cfg)
}

/// The values given for key `k`, in order.
pub open spec fn values_for(pairs: Seq<(Seq<char>, Seq<char>)>, k: Seq<char>) -> Seq<Seq<char>>
    decreases pairs.len(),
{
    if pairs.len() == 0 {
        seq![]
    } else {
        (if pairs[0].0 == k {
            seq![pairs[0].1]
        } else {
            seq![]
        }) + values_for(pairs.drop_first(), k)
    }
}

/// The values configured for key `k`, in declaration order.
pub open spec fn configured_values(cfg: Seq<(Seq<char>, Seq<Seq<char>>)>, k: Seq<char>) -> Seq<Seq<char>>
    decreases cfg.len(),
{
    if cfg.len() == 0 {
        seq![]
    } else {
        (if cfg[0].0 == k {
            cfg[0].1
        } else {
            seq![]
        }) + configured_values(cfg.drop_first(), k)
    }
}

pub open spec fn pair_text(p: (Seq<char>, Seq<char>)) -> Seq<char> {
    p.0 + seq!['='] + p.1
}

/// `&k=v` for each pair.
pub open spec fn tail_text(ps: Seq<(Seq<char>, Seq<char>)>) -> Seq<char>
    decreases ps.len(),
{
    if ps.len() == 0 {
        seq![]
    } else {
        seq!['&'] + pair_text(ps[0]) + tail_text(ps.drop_first())
    }
}

/// The pairs written as `k=v` joined by `&`.
pub open spec fn query_text(ps: Seq<(Seq<char>, Seq<char>)>) -> Seq<char> {
    if ps.len() == 0 {
        seq![]
    } else {
        pair_text(ps[0]) + tail_text(ps.drop_first())
    }
}

pub open spec fn pairs_view(v: Seq<(String, String)>) -> Seq<(Seq<char>, Seq<char>)> {
    v.map_values(|p: (String, String)| (p.0@, p.1@))
}

pub open spec fn config_view(v: Seq<(String, Vec<String>)>) -> Seq<(Seq<char>, Seq<Seq<char>>)> {
    v.map_values(|p: (String, Vec<String>)| (p.0@, p.1@.map_values(|s: String| s@)))
}

proof fn lemma_values_for_concat(a: Seq<(Seq<char>, Seq<char>)>, b: Seq<(Seq<char>, Seq<char>)>, k: Seq<char>)
    ensures
        values_for(a + b, k) == values_for(a, k) + values_for(b, k),
    decreases a.len(),
{
    if a.len() == 0 {
        assert(a + b =~= b);
        assert(values_for(a, k) + values_for(b, k) =~= values_for(b, k));
    } else {
        assert((a + b)[0] == a[0]);
        assert((a + b).drop_first() =~= a.drop_first() + b);
        lemma_values_for_concat(a.drop_first(), b, k);
        let h: Seq<Seq<char>> = if a[0].0 == k {
            seq![a[0].1]
        } else {
            seq![]
        };
        assert(h + (values_for(a.drop_first(), k) + values_for(b, k)) =~= h + values_for(a.drop_first(), k)
            + values_for(b, k));
    }
}

proof fn lemma_values_for_one_key(k0: Seq<char>, vs: Seq<Seq<char>>, k: Seq<char>)
    ensures
        values_for(vs.map_values(|v: Seq<char>| (k0, v)), k) == if k0 == k {
            vs
        } else {
            seq![]
        },
    decreases vs.len(),
{
    let ps = vs.map_values(|v: Seq<char>| (k0, v));
    if vs.len() == 0 {
        if k0 == k {
            assert(vs =~= Seq::<Seq<char>>::empty());
        }
    } else {
        assert(ps.drop_first() =~= vs.drop_first().map_values(|v: Seq<char>| (k0, v)));
        lemma_values_for_one_key(k0, vs.drop_first(), k);
        if k0 == k {
            assert(seq![vs[0]] + vs.drop_first() =~= vs);
        } else {
            assert(Seq::<Seq<char>>::empty() + Seq::<Seq<char>>::empty() =~= Seq::<Seq<char>>::empty());
        }
    }
}

/// For every key, the merged query holds first the endpoint's own values for
/// it and then the configured ones, in declaration order; the merge is a
/// function of its inputs alone, so the same configuration always gives the
/// same query.
pub proof fn lemma_merge_per_key(
    raw: Seq<(Seq<char>, Seq<char>)>,
    cfg: Seq<(Seq<char>, Seq<Seq<char>>)>,
    k: Seq<char>,
)
    ensures
        values_for(merged(raw, cfg), k) == values_for(raw, k) + configured_values(cfg, k),
    decreases cfg.len(),
{
    lemma_values_for_concat(raw, config_pairs(cfg), k);
    lemma_config_values(cfg, k);
}

proof fn lemma_config_values(cfg: Seq<(Seq<char>, Seq<Seq<char>>)>, k: Seq<char>)
    ensures
        values_for(config_pairs(cfg), k) == configured_values(cfg, k),
    decreases cfg.len(),
{
    if cfg.len() > 0 {
        let head = cfg[0].1.map_values(|v: Seq<char>| (cfg[0].0, v));
        lemma_values_for_concat(head, config_pairs(cfg.drop_first()), k);
        lemma_values_for_one_key(cfg[0].0, cfg[0].1, k);
        lemma_config_values(cfg.drop_first(), k);
    }
}

/// Reads the pairs of a raw query text.
pub fn parse_query(text: &str) -> (r: Vec<(String, String)>)
    ensures
        pairs_view(r@) == query_pairs(text@),
{
    let n = text.unicode_len();
    let ghost s = text@;
    let mut out: Vec<(String, String)> = Vec::new();
    let mut key = String::new();
    let mut val = String::new();
    let mut in_val = false;
    let mut i: usize = 0;
    assert(s.subrange(0, s.len() as int) =~= s);
    assert(pairs_view(out@) =~= Seq::<(Seq<char>, Seq<char>)>::empty());
    assert(query_pairs(s) =~= pairs_view(out@) + query_pairs(s));
    while i < n
        invariant
            n == s.len(),
            s == text@,
            i <= n,
            query_pairs(s) == pairs_view(out@) + pairs_from(s.subrange(i as int, n as int), key@, val@, in_val),
        decreases n - i,
    {
        let c = text.get_char(i);
        let ghost rest = s.subrange(i as int, n as int);
        assert(rest[0] == c);
        assert(rest.drop_first() =~= s.subrange(i + 1, n as int));
        if c == '&' {
            if key.unicode_len() > 0 || in_val {
                let ghost prev = out@;
                out.push((key, val));
                assert(pairs_view(out@) =~= pairs_view(prev) + seq![(key@, val@)]);
            } else {
                assert(pairs_view(out@) + Seq::<(Seq<char>, Seq<char>)>::empty() =~= pairs_view(out@));
            }
            key = String::new();
            val = String::new();
            in_val = false;
            proof {
                assert(key@ =~= Seq::<char>::empty());
            }
        } else if c == '=' && !in_val {
            in_val = true;
        } else {
            let piece = text.substring_char(i, i + 1);
            assert(piece@ =~= seq![c]);
            let ghost k0 = key@;
            let ghost v0 = val@;
            if in_val {
                val.append(piece);
                assert(val@ =~= v0.push(c));
            } else {
                key.append(piece);
                assert(key@ =~= k0.push(c));
            }
        }
        i = i + 1;
    }
    assert(s.subrange(n as int, n as int) =~= Seq::<char>::empty());
    if key.unicode_len() > 0 || in_val {
        let ghost prev = out@;
        out.push((key, val));
        assert(pairs_view(out@) =~= pairs_view(prev) + seq![(key@, val@)]);
    } else {
        assert(pairs_view(out@) + Seq::<(Seq<char>, Seq<char>)>::empty() =~= pairs_view(out@));
    }
    out
}

/// The endpoint's pairs followed by the configured ones.
pub fn merge_query(raw: &Vec<(String, String)>, cfg: &Vec<(String, Vec<String>)>) -> (r: Vec<(String, String)>)
    ensures
        pairs_view(r@) == merged(pairs_view(raw@), config_view(cfg@)),
{
    let ghost c = config_view(cfg@);
    let mut out: Vec<(String, String)> = Vec::new();
    let mut i: usize = 0;
    while i < raw.len()
        invariant
            i <= raw@.len(),
            pairs_view(out@) == pairs_view(raw@).subrange(0, i as int),
        decreases raw@.len() - i,
    {
        let k = raw[i].0.clone();
        let v = raw[i].1.clone();
        let ghost prev = out@;
        out.push((k, v));
        assert(pairs_view(out@) =~= pairs_view(prev) + seq![(raw@[i as int].0@, raw@[i as int].1@)]);
        assert(pairs_view(out@) =~= pairs_view(raw@).subrange(0, i + 1));
        i = i + 1;
    }
    assert(pairs_view(raw@).subrange(0, i as int) =~= pairs_view(raw@));
    assert(c.subrange(0, c.len() as int) =~= c);
    let mut j: usize = 0;
    while j < cfg.len()
        invariant
            j <= cfg@.len(),
            c == config_view(cfg@),
            merged(pairs_view(raw@), c) == pairs_view(out@) + config_pairs(c.subrange(j as int, c.len() as int)),
        decreases cfg@.len() - j,
    {
        let ghost sub = c.subrange(j as int, c.len() as int);
        assert(sub[0] == c[j as int]);
        assert(sub.drop_first() =~= c.subrange(j + 1, c.len() as int));
        let ghost base = out@;
        let ghost head = c[j as int].1.map_values(|v: Seq<char>| (c[j as int].0, v));
        let key = &cfg[j].0;
        let vals = &cfg[j].1;
        let mut m: usize = 0;
        while m < vals.len()
            invariant
                m <= vals@.len(),
                c == config_view(cfg@),
                j < cfg@.len(),
                key == cfg@[j as int].0,
                vals == cfg@[j as int].1,
                head == c[j as int].1.map_values(|v: Seq<char>| (c[j as int].0, v)),
                pairs_view(out@) == pairs_view(base) + head.subrange(0, m as int),
            decreases vals@.len() - m,
        {
            let k = key.clone();
            let v = vals[m].clone();
            let ghost prev = out@;
            out.push((k, v));
            assert(pairs_view(out@) =~= pairs_view(prev) + seq![(k@, v@)]);
            assert(head[m as int] == (k@, v@));
            assert(pairs_view(out@) =~= pairs_view(base) + head.subrange(0, m + 1));
            m = m + 1;
        }
        assert(head.subrange(0, m as int) =~= head);
        assert(pairs_view(base) + head + config_pairs(sub.drop_first()) =~= pairs_view(base) + (head
            + config_pairs(sub.drop_first())));
        j = j + 1;
    }
    assert(c.subrange(j as int, c.len() as int) =~= Seq::<(Seq<char>, Seq<Seq<char>>)>::empty());
    assert(pairs_view(out@) + Seq::<(Seq<char>, Seq<char>)>::empty() =~= pairs_view(out@));
    out
}

/// Appends `k=v` to `out`.
fn write_pair(out: &mut String, p: &(String, String))
    ensures
        final(out)@ == old(out)@ + pair_text((p.0@, p.1@)),
{
    let ghost o = out@;
    out.append(p.0.as_str());
    proof {
        reveal_strlit("=");
    }
    out.append("=");
    out.append(p.1.as_str());
    assert(out@ =~= o + pair_text((p.0@, p.1@)));
}

/// The pairs written as `k=v` joined by `&`.
pub fn write_query(pairs: &Vec<(String, String)>) -> (r: String)
    ensures
        r@ == query_text(pairs_view(pairs@)),
{
    let ghost ps = pairs_view(pairs@);
    let mut out = String::new();
    if pairs.len() == 0 {
        return out;
    }
    write_pair(&mut out, &pairs[0]);
    assert(out@ =~= pair_text(ps[0]));
    let mut i: usize = 1;
    assert(ps.subrange(1, ps.len() as int) =~= ps.drop_first());
    while i < pairs.len()
        invariant
            1 <= i <= pairs@.len(),
            ps == pairs_view(pairs@),
            query_text(ps) == out@ + tail_text(ps.subrange(i as int, ps.len() as int)),
        decreases pairs@.len() - i,
    {
        let ghost sub = ps.subrange(i as int, ps.len() as int);
        assert(sub[0] == ps[i as int]);
        assert(sub.drop_first() =~= ps.subrange(i + 1, ps.len() as int));
        proof {
            reveal_strlit("&");
        }
        let ghost before = out@;
        out.append("&");
        write_pair(&mut out, &pairs[i]);
        assert(out@ =~= before + seq!['&'] + pair_text(ps[i as int]));
        assert(before + (seq!['&'] + pair_text(ps[i as int]) + tail_text(sub.drop_first())) =~= out@
            + tail_text(sub.drop_first()));
        i = i + 1;
    }
    assert(ps.subrange(i as int, ps.len() as int) =~= Seq::<(Seq<char>, Seq<char>)>::empty());
    assert(out@ + Seq::<char>::empty() =~= out@);
    out
}

} // verus!
