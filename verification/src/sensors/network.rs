//! Choosing what the network and disk sensors watch and which address
//! the faces show.

use vstd::prelude::*;
use super::data::IpDisplayPreference;

verus! {

/// Whether an IPv6 address (16 bytes, network order) is in the class a
/// preference asks for: global unicast 2000::/3, link-local fe80::/10 or
/// unique local fc00::/7.
pub open spec fn in_class(pref: IpDisplayPreference, a: [u8; 16]) -> bool {
    match pref {
        IpDisplayPreference::Ipv6Gua => 0x20 <= a[0] < 0x40,
        IpDisplayPreference::Ipv6Lla => a[0] == 0xFE && 0x80 <= a[1] < 0xC0,
        IpDisplayPreference::Ipv6Ula => 0xFC <= a[0] < 0xFE,
        IpDisplayPreference::Ipv4 => false,
    }
}

/// Tests whether an IPv6 address is in the class a preference asks for.
pub fn ipv6_in_class(pref: IpDisplayPreference, a: &[u8; 16]) -> (b: bool)
    ensures
        b == in_class(pref, *a),
{
    match pref {
        IpDisplayPreference::Ipv6Gua => 0x20 <= a[0] && a[0] < 0x40,
        IpDisplayPreference::Ipv6Lla => a[0] == 0xFE && 0x80 <= a[1] && a[1] < 0xC0,
        IpDisplayPreference::Ipv6Ula => 0xFC <= a[0] && a[0] < 0xFE,
        IpDisplayPreference::Ipv4 => false,
    }
}

/// Which of an interface's addresses to display.
#[derive(Debug, Clone, Copy, PartialEq, Eq, Structural)]
pub enum AddressPick {
    /// The IPv4 address at this position.
    V4(usize),
    /// The IPv6 address at this position.
    V6(usize),
}

/// Picks the address to display: the first IPv4 address for the IPv4
/// preference, else the first IPv6 address of the preferred class.
pub fn pick_display_address(pref: IpDisplayPreference, v4_count: usize, v6: &[[u8; 16]]) -> (r:
    Option<AddressPick>)
    ensures
        pref == IpDisplayPreference::Ipv4 ==> r == (if v4_count > 0 {
            Some(AddressPick::V4(0))
        } else {
            None
        }),
        pref != IpDisplayPreference::Ipv4 ==> match r {
            Some(AddressPick::V6(i)) => i < v6@.len() && in_class(pref, v6@[i as int]) && forall|
                j: int,
            | 0 <= j < i ==> !in_class(pref, #[trigger] v6@[j]),
            Some(AddressPick::V4(_)) => false,
            None => forall|j: int| 0 <= j < v6@.len() ==> !in_class(pref, #[trigger] v6@[j]),
        },
{
    match pref {
        IpDisplayPreference::Ipv4 => {
            if v4_count > 0 {
                Some(AddressPick::V4(0))
            } else {
                None
            }
        },
        _ => {
            let mut i: usize = 0;
            while i < v6.len()
                invariant
                    pref != IpDisplayPreference::Ipv4,
                    i <= v6@.len(),
                    forall|j: int| 0 <= j < i ==> !in_class(pref, #[trigger] v6@[j]),
                decreases v6@.len() - i,
            {
                if ipv6_in_class(pref, &v6[i]) {
                    return Some(AddressPick::V6(i));
                }
                i = i + 1;
            }
            None
        },
    }
}

/// The disks tried as the primary one, in order of preference.
pub open spec fn disk_candidates() -> Seq<Seq<char>> {
    seq!["nvme0n1"@, "sda"@, "vda"@, "xvda"@, "mmcblk0"@]
}

/// The disk devices tried as the primary one, in order of preference.
pub fn primary_disk_candidates() -> (v: Vec<&'static str>)
    ensures
        v@.len() == 5,
        forall|i: int| 0 <= i < 5 ==> (#[trigger] v@[i])@ == disk_candidates()[i],
{
    vec!["nvme0n1", "sda", "vda", "xvda", "mmcblk0"]
}

/// The primary disk: the first candidate that is present (`present[i]`
/// tells whether candidate `i` is), else `sda`.
pub fn primary_disk(present: &[bool]) -> (d: &'static str)
    ensures
        forall|i: int|
            0 <= i < 5 && i < present@.len() && present@[i] && (forall|j: int|
                0 <= j < i ==> !present@[j]) ==> d@ == disk_candidates()[i],
        (forall|j: int| 0 <= j < 5 && j < present@.len() ==> !present@[j]) ==> d@ == "sda"@,
{
    let candidates = primary_disk_candidates();
    let mut i: usize = 0;
    while i < 5 && i < present.len()
        invariant
            candidates@.len() == 5,
            forall|k: int| 0 <= k < 5 ==> (#[trigger] candidates@[k])@ == disk_candidates()[k],
            i <= 5,
            i <= present@.len(),
            forall|j: int| 0 <= j < i ==> !present@[j],
        decreases 5 - i,
    {
        if present[i] {
            return candidates[i];
        }
        i = i + 1;
    }
    "sda"
}

} // verus!
