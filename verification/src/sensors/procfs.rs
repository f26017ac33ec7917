//! Reading the kernel's `/proc` files: memory totals, CPU times, disk
//! sector counts and the default route.

use vstd::prelude::*;
use crate::scan::{
    chars_eq, chars_of, char_views, has_prefix, lemma_skip_step, lines, parse_u64,
    parse_u64_chars, split_lines, split_words, string_of, words,
};

verus! {

/// The value on the first line that starts with `key` and has a second
/// word: that word read as a number (`None` when it is not one).
pub open spec fn meminfo_entry(ls: Seq<Seq<char>>, key: Seq<char>) -> Option<u64>
    decreases ls.len(),
{
    if ls.len() == 0 {
        None
    } else if key.is_prefix_of(ls[0]) && words(ls[0]).len() >= 2 {
        parse_u64(words(ls[0])[1])
    } else {
        meminfo_entry(ls.drop_first(), key)
    }
}

/// Reads the value of a `/proc/meminfo` field such as `MemTotal:` (in kB).
pub fn meminfo_value(content: &str, key: &str) -> (r: Option<u64>)
    ensures
        r == meminfo_entry(lines(content@), key@),
{
    let cs = chars_of(content);
    let kc = chars_of(key);
    let ls = split_lines(cs.as_slice());
    let ghost lv = char_views(ls@);
    let mut j: usize = 0;
    assert(lv.skip(0) =~= lv);
    while j < ls.len()
        invariant
            lv == char_views(ls@),
            lv == lines(content@),
            kc@ == key@,
            j <= ls@.len(),
            meminfo_entry(lv.skip(j as int), key@) == meminfo_entry(lv, key@),
        decreases ls@.len() - j,
    {
        proof {
            lemma_skip_step(lv, j as int);
        }
        let line = &ls[j];
        if has_prefix(line.as_slice(), kc.as_slice()) {
            let ws = split_words(line.as_slice());
            if ws.len() >= 2 {
                return parse_u64_chars(ws[1].as_slice());
            }
        }
        j = j + 1;
    }
    None
}

/// The numbers among `ws`, in order (words that are no number are left out).
pub open spec fn numbers_of(ws: Seq<Seq<char>>) -> Seq<u64>
    decreases ws.len(),
{
    if ws.len() == 0 {
        Seq::empty()
    } else {
        let rest = numbers_of(ws.drop_last());
        match parse_u64(ws.last()) {
            Some(v) => rest.push(v),
            None => rest,
        }
    }
}

/// The sum of `s` wrapped to 64 bits.
pub open spec fn wrapping_sum(s: Seq<u64>) -> u64
    decreases s.len(),
{
    if s.len() == 0 {
        0
    } else {
        vstd::wrapping::u64_specs::wrapping_add(wrapping_sum(s.drop_last()), s.last())
    }
}

/// `s` without its first element (empty when `s` is).
pub open spec fn rest_of<A>(s: Seq<A>) -> Seq<A> {
    if s.len() == 0 {
        s
    } else {
        s.drop_first()
    }
}

/// The (idle, total) CPU times of the first line of `/proc/stat`: the
/// numbers after its first word, idle being the fourth of them and total
/// their sum; `None` with fewer than four.
pub open spec fn cpu_times_of(content: Seq<char>) -> Option<(u64, u64)> {
    let ls = lines(content);
    if ls.len() == 0 {
        None
    } else {
        let p = numbers_of(rest_of(words(ls[0])));
        if p.len() >= 4 {
            Some((p[3], wrapping_sum(p)))
        } else {
            None
        }
    }
}

/// Reads the aggregate (idle, total) CPU times from `/proc/stat`.
pub fn cpu_times(content: &str) -> (r: Option<(u64, u64)>)
    ensures
        r == cpu_times_of(content@),
{
    let cs = chars_of(content);
    let ls = split_lines(cs.as_slice());
    if ls.len() == 0 {
        return None;
    }
    let ws = split_words(ls[0].as_slice());
    let ghost wv = char_views(ws@);
    let ghost rv = rest_of(wv);
    let mut parts: Vec<u64> = Vec::new();
    let mut total: u64 = 0;
    let mut k: usize = 1;
    assert(rv.take(0) =~= Seq::<Seq<char>>::empty());
    while k < ws.len()
        invariant
            wv == char_views(ws@),
            rv == rest_of(wv),
            1 <= k,
            k <= ws@.len() || ws@.len() == 0,
            ws@.len() > 0 ==> parts@ == numbers_of(rv.take(k - 1)),
            ws@.len() > 0 ==> total == wrapping_sum(parts@),
            ws@.len() == 0 ==> parts@.len() == 0 && total == 0,
        decreases ws@.len() - k,
    {
        let ghost p0 = parts@;
        proof {
            assert(rv.take(k as int) =~= rv.take(k - 1).push(wv[k as int]));
            assert(rv.take(k as int).drop_last() =~= rv.take(k - 1));
        }
        match parse_u64_chars(ws[k].as_slice()) {
            Some(v) => {
                parts.push(v);
                total = total.wrapping_add(v);
                proof {
                    assert(parts@.drop_last() =~= p0);
                }
            },
            None => {},
        }
        k = k + 1;
    }
    proof {
        if ws@.len() > 0 {
            assert(rv.take(ws@.len() - 1) =~= rv);
        } else {
            assert(rv =~= Seq::<Seq<char>>::empty());
        }
    }
    if parts.len() >= 4 {
        Some((parts[3], total))
    } else {
        None
    }
}

/// The (read, written) sector counts of `device` in `/proc/diskstats`:
/// those of the first line with at least ten words whose third word is
/// the device (`None` when one of the two is no number).
pub open spec fn disk_sectors(ls: Seq<Seq<char>>, device: Seq<char>) -> Option<(u64, u64)>
    decreases ls.len(),
{
    if ls.len() == 0 {
        None
    } else if words(ls[0]).len() >= 10 && words(ls[0])[2] == device {
        match (parse_u64(words(ls[0])[5]), parse_u64(words(ls[0])[9])) {
            (Some(r), Some(w)) => Some((r, w)),
            _ => None,
        }
    } else {
        disk_sectors(ls.drop_first(), device)
    }
}

/// Reads the sector counts of a block device from `/proc/diskstats`.
pub fn diskstats_sectors(content: &str, device: &str) -> (r: Option<(u64, u64)>)
    ensures
        r == disk_sectors(lines(content@), device@),
{
    let cs = chars_of(content);
    let dc = chars_of(device);
    let ls = split_lines(cs.as_slice());
    let ghost lv = char_views(ls@);
    let mut j: usize = 0;
    assert(lv.skip(0) =~= lv);
    while j < ls.len()
        invariant
            lv == char_views(ls@),
            lv == lines(content@),
            dc@ == device@,
            j <= ls@.len(),
            disk_sectors(lv.skip(j as int), device@) == disk_sectors(lv, device@),
        decreases ls@.len() - j,
    {
        proof {
            lemma_skip_step(lv, j as int);
        }
        let ws = split_words(ls[j].as_slice());
        if ws.len() >= 10 && chars_eq(ws[2].as_slice(), dc.as_slice()) {
            let r = parse_u64_chars(ws[5].as_slice());
            let w = parse_u64_chars(ws[9].as_slice());
            return match (r, w) {
                (Some(r), Some(w)) => Some((r, w)),
                _ => None,
            };
        }
        j = j + 1;
    }
    None
}

/// The interface of the first route whose destination (second word) is
/// `00000000`, among the lines of `/proc/net/route` after its header.
pub open spec fn route_entry(ls: Seq<Seq<char>>) -> Option<Seq<char>>
    decreases ls.len(),
{
    if ls.len() == 0 {
        None
    } else if words(ls[0]).len() >= 2 && words(ls[0])[1] == "00000000"@ {
        Some(words(ls[0])[0])
    } else {
        route_entry(ls.drop_first())
    }
}

/// The interface of the default route in `/proc/net/route`, if any.
pub fn default_route_interface(content: &str) -> (r: Option<String>)
    ensures
        match r {
            Some(s) => route_entry(rest_of(lines(content@))) == Some(s@),
            None => route_entry(rest_of(lines(content@))) is None,
        },
{
    let cs = chars_of(content);
    let zeros = chars_of("00000000");
    let ls = split_lines(cs.as_slice());
    let ghost lv = char_views(ls@);
    let ghost rv = rest_of(lv);
    if ls.len() == 0 {
        assert(rv =~= Seq::<Seq<char>>::empty());
        return None;
    }
    let mut j: usize = 1;
    assert(lv.skip(1) =~= rv);
    while j < ls.len()
        invariant
            lv == char_views(ls@),
            lv == lines(content@),
            rv == rest_of(lv),
            lv.len() > 0,
            zeros@ == "00000000"@,
            1 <= j <= ls@.len(),
            route_entry(lv.skip(j as int)) == route_entry(rv),
        decreases ls@.len() - j,
    {
        proof {
            lemma_skip_step(lv, j as int);
        }
        let ws = split_words(ls[j].as_slice());
        if ws.len() >= 2 && chars_eq(ws[1].as_slice(), zeros.as_slice()) {
            return Some(string_of(ws[0].as_slice()));
        }
        j = j + 1;
    }
    assert(lv.skip(j as int) =~= Seq::<Seq<char>>::empty());
    None
}

/// Whether an interface name is listed: loopback (`lo`) and virtual
/// interfaces (`veth*`, `docker*`) are not.
pub open spec fn listed_interface(name: Seq<char>) -> bool {
    !(name == "lo"@ || "veth"@.is_prefix_of(name) || "docker"@.is_prefix_of(name))
}

/// Whether an interface is shown among the network interfaces.
pub fn is_listed_interface(name: &str) -> (b: bool)
    ensures
        b == listed_interface(name@),
{
    let n = chars_of(name);
    let lo = chars_of("lo");
    let veth = chars_of("veth");
    let docker = chars_of("docker");
    !(chars_eq(n.as_slice(), lo.as_slice()) || has_prefix(n.as_slice(), veth.as_slice())
        || has_prefix(n.as_slice(), docker.as_slice()))
}

} // verus!
