//! Device paths: which ones may be touched at all, the whole disk a
//! partition belongs to, and whether a path lies on the disk that holds the
//! root filesystem.

use vstd::prelude::*;
use crate::split::{blank_spaces, copy_all, pieces, spaces_blanked, split_pieces, views, Separators};

verus! {

/// `"/dev/sd"`: SCSI and SATA disks.
pub open spec fn sd_family() -> Seq<u8> {
    seq![47u8, 100, 101, 118, 47, 115, 100]
}

/// `"/dev/nvme"`: NVMe namespaces.
pub open spec fn nvme_family() -> Seq<u8> {
    seq![47u8, 100, 101, 118, 47, 110, 118, 109, 101]
}

pub open spec fn has_prefix(s: Seq<u8>, p: Seq<u8>) -> bool {
    p.len() <= s.len() && s.subrange(0, p.len() as int) == p
}

/// A path of one of the two recognised naming families.
pub open spec fn is_device_path(s: Seq<u8>) -> bool {
    has_prefix(s, sd_family()) || has_prefix(s, nvme_family())
}

pub open spec fn is_digit(b: u8) -> bool {
    48 <= b && b <= 57
}

/// `s` without its trailing run of decimal digits.
pub open spec fn strip_digits(s: Seq<u8>) -> Seq<u8>
    decreases s.len(),
{
    if s.len() > 0 && is_digit(s.last()) {
        strip_digits(s.drop_last())
    } else {
        s
    }
}

/// The whole disk that a device path names: an NVMe path loses a trailing
/// `p<digits>` partition suffix (a `p` and at least one digit), a SCSI/SATA
/// path its trailing digits, and any other path stays as it is.
pub open spec fn parent_of(s: Seq<u8>) -> Seq<u8> {
    if has_prefix(s, nvme_family()) {
        let t = strip_digits(s);
        if t.len() < s.len() && t.len() > 0 && t.last() == 112u8 {
            t.drop_last()
        } else {
            s
        }
    } else if has_prefix(s, sd_family()) {
        strip_digits(s)
    } else {
        s
    }
}

/// The source of the first mount whose mount point is `/`, among the mount
/// table lines `lines`; fields are separated by Unicode whitespace.
pub open spec fn root_source(lines: Seq<Seq<u8>>) -> Option<Seq<u8>>
    decreases lines.len(),
{
    if lines.len() == 0 {
        None
    } else {
        let f = pieces(Separators::Whitespace, spaces_blanked(lines[0]));
        if f.len() >= 2 && f[1] == seq![47u8] {
            Some(f[0])
        } else {
            root_source(lines.drop_first())
        }
    }
}

/// The device mounted on `/` according to the mount table text `mounts`.
pub open spec fn root_device_of(mounts: Seq<u8>) -> Option<Seq<u8>> {
    root_source(pieces(Separators::Newline, mounts))
}

/// `path` lies on the same disk as the root filesystem.
pub open spec fn on_system_disk(mounts: Seq<u8>, path: Seq<u8>) -> bool {
    match root_device_of(mounts) {
        Some(root) => parent_of(root) == parent_of(path),
        None => false,
    }
}

pub fn bytes_equal(a: &[u8], b: &[u8]) -> (r: bool)
    ensures
        r == (a@ == b@),
{
    if a.len() != b.len() {
        return false;
    }
    let mut i: usize = 0;
    while i < a.len()
        invariant
            i <= a@.len() == b@.len(),
            a@.subrange(0, i as int) == b@.subrange(0, i as int),
        decreases a.len() - i,
    {
        if a[i] != b[i] {
            assert(a@[i as int] != b@[i as int]);
            return false;
        }
        i = i + 1;
        proof {
            assert(a@.subrange(0, i as int) =~= a@.subrange(0, i - 1).push(a@[i - 1]));
            assert(b@.subrange(0, i as int) =~= b@.subrange(0, i - 1).push(b@[i - 1]));
        }
    }
    assert(a@ =~= a@.subrange(0, i as int));
    assert(b@ =~= b@.subrange(0, i as int));
    true
}

pub fn starts_with(s: &[u8], p: &[u8]) -> (r: bool)
    ensures
        r == has_prefix(s@, p@),
{
    if p.len() > s.len() {
        return false;
    }
    bytes_equal(&s[0..p.len()], p)
}

/// Whether `path` belongs to one of the two recognised naming families.
pub fn is_valid_device_path(path: &[u8]) -> (r: bool)
    ensures
        r == is_device_path(path@),
{
    let sd: [u8; 7] = [47u8, 100, 101, 118, 47, 115, 100];
    let nvme: [u8; 9] = [47u8, 100, 101, 118, 47, 110, 118, 109, 101];
    assert(sd@ =~= sd_family());
    assert(nvme@ =~= nvme_family());
    starts_with(path, &sd) || starts_with(path, &nvme)
}

/// The length of `s` without its trailing digits.
fn digits_start(s: &[u8]) -> (r: usize)
    ensures
        r <= s@.len(),
        s@.subrange(0, r as int) == strip_digits(s@),
{
    let mut end: usize = s.len();
    assert(s@.subrange(0, end as int) =~= s@);
    while end > 0 && s[end - 1] >= 48 && s[end - 1] <= 57
        invariant
            end <= s@.len(),
            strip_digits(s@) == strip_digits(s@.subrange(0, end as int)),
        decreases end,
    {
        assert(s@.subrange(0, end as int).drop_last() =~= s@.subrange(0, end - 1));
        end = end - 1;
    }
    end
}

/// The whole disk that the device path `dev` names (`/dev/sda1` gives
/// `/dev/sda`, `/dev/nvme0n1p2` gives `/dev/nvme0n1`).
pub fn parent_block_device(dev: &[u8]) -> (r: Vec<u8>)
    ensures
        r@ == parent_of(dev@),
{
    let nvme: [u8; 9] = [47u8, 100, 101, 118, 47, 110, 118, 109, 101];
    let sd: [u8; 7] = [47u8, 100, 101, 118, 47, 115, 100];
    assert(sd@ =~= sd_family());
    assert(nvme@ =~= nvme_family());
    let end = digits_start(dev);
    if starts_with(dev, &nvme) {
        if end < dev.len() && end > 0 && dev[end - 1] == 112 {
            proof {
                assert(strip_digits(dev@).drop_last() =~= dev@.subrange(0, end - 1));
            }
            copy_all(&dev[0..end - 1])
        } else {
            copy_all(dev)
        }
    } else if starts_with(dev, &sd) {
        copy_all(&dev[0..end])
    } else {
        copy_all(dev)
    }
}

/// The device mounted on `/` according to the mount table text `mounts`
/// (one mount per line, source first and mount point second).
pub fn root_device(mounts: &[u8]) -> (r: Option<Vec<u8>>)
    ensures
        match r {
            Some(v) => root_device_of(mounts@) == Some(v@),
            None => root_device_of(mounts@) is None,
        },
{
    let lines = split_pieces(Separators::Newline, mounts);
    let ghost all = views(lines@);
    let mut i: usize = 0;
    assert(all.subrange(0, all.len() as int) =~= all);
    while i < lines.len()
        invariant
            i <= lines@.len(),
            all == views(lines@),
            all == pieces(Separators::Newline, mounts@),
            root_source(all) == root_source(all.subrange(i as int, all.len() as int)),
        decreases lines.len() - i,
    {
        let blanked = blank_spaces(lines[i].as_slice());
        let fields = split_pieces(Separators::Whitespace, blanked.as_slice());
        assert(all.subrange(i as int, all.len() as int)[0] == lines@[i as int]@);
        assert(all.subrange(i as int, all.len() as int).drop_first() =~= all.subrange(
            i + 1,
            all.len() as int,
        ));
        if fields.len() >= 2 && fields[1].len() == 1 && fields[1][0] == 47 {
            proof {
                let sub = all.subrange(i as int, all.len() as int);
                assert(views(fields@)[1] =~= seq![47u8]);
                assert(pieces(Separators::Whitespace, spaces_blanked(sub[0])) == views(fields@));
                assert(views(fields@)[0] == fields@[0]@);
                assert(root_source(sub) == Some(fields@[0]@));
            }
            let root = copy_all(fields[0].as_slice());
            return Some(root);
        }
        proof {
            if views(fields@).len() >= 2 {
                if views(fields@)[1] == seq![47u8] {
                    assert(fields@[1]@.len() == 1);
                    assert(fields@[1]@[0] == 47u8);
                }
            }
        }
        i = i + 1;
    }
    None
}

/// The system-disk check depends on the mount table and the path alone:
/// asking twice with the same inputs gives the same answer.
pub proof fn lemma_system_check_repeatable(mounts1: Seq<u8>, mounts2: Seq<u8>, path1: Seq<u8>, path2: Seq<u8>)
    requires
        mounts1 == mounts2,
        path1 == path2,
    ensures
        on_system_disk(mounts1, path1) == on_system_disk(mounts2, path2),
{
}

/// Whether `device_path` lies on the disk that holds the root filesystem,
/// according to the mount table text `mounts`. Without a root entry no
/// path counts as the system disk.
pub fn is_system_device(mounts: &[u8], device_path: &[u8]) -> (r: bool)
    ensures
        r == on_system_disk(mounts@, device_path@),
{
    match root_device(mounts) {
        Some(root) => {
            let root_parent = parent_block_device(root.as_slice());
            let target_parent = parent_block_device(device_path);
            bytes_equal(root_parent.as_slice(), target_parent.as_slice())
        },
        None => false,
    }
}

} // verus!
