//! Configuration ROM entries and model-name detection.
//!
//! A device identifies itself through its configuration ROM, a tree of
//! keyed entries.  The surrounding driver parses the ROM bytes into this
//! tree; the walk below finds the model name: a textual descriptor leaf
//! under the bus-dependent-info key of a dependent-info directory of a
//! unit directory.

use vstd::prelude::*;
use crate::ProtocolError;

verus! {

/// The key code of a unit directory entry.
pub const KEY_UNIT: u8 = 0x11;

/// The key code of a dependent-info directory entry.
pub const KEY_DEPENDENT_INFO: u8 = 0x14;

/// The key code of a bus-dependent-info entry.
pub const KEY_BUS_DEPENDENT_INFO: u8 = 0x02;

/// The content of one configuration ROM entry.
#[derive(Debug, PartialEq, Eq)]
pub enum ConfigEntryData {
    /// An immediate value.
    Immediate(u32),
    /// An offset into the control and status register space, in quadlets.
    CsrOffset(u32),
    /// The raw bytes of a leaf block.
    Leaf(Vec<u8>),
    /// A nested directory of entries.
    Directory(Vec<ConfigEntry>),
}

/// One keyed entry of a configuration ROM directory.
#[derive(Debug, PartialEq, Eq)]
pub struct ConfigEntry {
    /// The key code of the entry.
    pub key: u8,
    /// The content of the entry.
    pub data: ConfigEntryData,
}

/// Whether a leaf holds a textual descriptor: a descriptor header of two
/// quadlets whose first byte marks the textual type, then the text bytes.
pub open spec fn spec_textual_leaf(l: Seq<u8>) -> bool {
    l.len() >= 8 && l[0] == 0u8
}

/// Whether `t` is exactly the text of the textual descriptor leaf `l`: the
/// bytes after the two header quadlets, cut at the first terminating zero
/// byte, or whole if none terminates it.
pub open spec fn spec_leaf_text_is(l: Seq<u8>, t: Seq<u8>) -> bool {
    &&& spec_textual_leaf(l)
    &&& 8 + t.len() <= l.len()
    &&& t == l.subrange(8, 8 + t.len() as int)
    &&& forall|i: int| 8 <= i < 8 + t.len() ==> l[i] != 0u8
    &&& (8 + t.len() == l.len() || l[8 + t.len() as int] == 0u8)
}

/// The position of the first terminating zero byte of `l` at or after
/// `from`, or the length of `l` if none terminates it.
pub open spec fn spec_first_nul(l: Seq<u8>, from: int) -> int
    decreases l.len() - from,
{
    if from < 0 || from >= l.len() {
        l.len() as int
    } else if l[from] == 0u8 {
        from
    } else {
        spec_first_nul(l, from + 1)
    }
}

/// The text of a textual descriptor leaf: the bytes after the two header
/// quadlets, up to the first terminating zero byte.
pub open spec fn spec_leaf_text(l: Seq<u8>) -> Seq<u8> {
    l.subrange(8, spec_first_nul(l, 8))
}

/// What the first-zero position satisfies: every byte before it is
/// nonzero, and it carries a zero byte or is the end.
pub proof fn lemma_first_nul(l: Seq<u8>, from: int)
    requires
        0 <= from <= l.len(),
    ensures
        from <= spec_first_nul(l, from) <= l.len(),
        forall|i: int| from <= i < spec_first_nul(l, from) ==> l[i] != 0u8,
        spec_first_nul(l, from) == l.len() || l[spec_first_nul(l, from)] == 0u8,
    decreases l.len() - from,
{
    if from < l.len() && l[from] != 0u8 {
        lemma_first_nul(l, from + 1);
    }
}

/// The leaf-text relation determines the text: a sequence standing in it
/// is the leaf's text.
pub proof fn lemma_leaf_text_unique(l: Seq<u8>, t: Seq<u8>)
    requires
        spec_leaf_text_is(l, t),
    ensures
        t == spec_leaf_text(l),
{
    lemma_first_nul(l, 8);
    let r = spec_first_nul(l, 8);
    if r < 8 + t.len() {
        assert(l[r] != 0u8);
        assert(false);
    }
    if r > 8 + t.len() {
        assert(8 + t.len() < l.len());
        assert(l[8 + t.len() as int] != 0u8);
        assert(false);
    }
    assert(t =~= spec_leaf_text(l));
}

/// The text of a textual descriptor leaf: `Some` exactly for a leaf with a
/// well-formed textual header, holding the text bytes after the header up
/// to the first terminating zero byte.
///
/// The text is returned as raw bytes without character-set validation;
/// the caller decides how to interpret them, so a leaf whose text is not
/// valid in the caller's character set surfaces there rather than being
/// skipped here.
pub fn parse_textual_leaf(leaf: &Vec<u8>) -> (r: Option<Vec<u8>>)
    ensures
        r is Some <==> spec_textual_leaf(leaf@),
        r matches Some(t) ==> spec_leaf_text_is(leaf@, t@),
        r matches Some(t) ==> t@ == spec_leaf_text(leaf@),
{
    let n: usize = leaf.len();
    if n < 8 || leaf[0] != 0 {
        return None;
    }
    let mut text: Vec<u8> = Vec::new();
    let mut i: usize = 8;
    while i < n
        invariant
            n == leaf@.len(),
            n >= 8,
            leaf@[0] == 0u8,
            8 <= i <= n,
            text@.len() == i - 8,
            text@ == leaf@.subrange(8, i as int),
            forall|j: int| 8 <= j < i ==> leaf@[j] != 0u8,
        decreases n - i,
    {
        let b = leaf[i];
        if b == 0 {
            proof {
                assert(text@ == leaf@.subrange(8, 8 + text@.len() as int));
                assert(spec_leaf_text_is(leaf@, text@));
                lemma_leaf_text_unique(leaf@, text@);
            }
            return Some(text);
        }
        let ghost prev = text@;
        text.push(b);
        proof {
            assert(text@ =~= leaf@.subrange(8, i + 1));
        }
        i = i + 1;
    }
    proof {
        assert(spec_leaf_text_is(leaf@, text@));
        lemma_leaf_text_unique(leaf@, text@);
    }
    Some(text)
}

/// Whether a third-level directory holds a bus-dependent-info entry whose
/// leaf is a textual descriptor.
pub open spec fn spec_has_name_leaf(entries: Seq<ConfigEntry>) -> bool {
    exists|k: int|
        0 <= k < entries.len() && entries[k].key == KEY_BUS_DEPENDENT_INFO
            && (entries[k].data matches ConfigEntryData::Leaf(l) && spec_textual_leaf(l@))
}

/// Whether a unit directory holds a dependent-info directory with a model
/// name leaf.
pub open spec fn spec_unit_has_name(entries: Seq<ConfigEntry>) -> bool {
    exists|j: int|
        0 <= j < entries.len() && entries[j].key == KEY_DEPENDENT_INFO
            && (entries[j].data matches ConfigEntryData::Directory(d)
            && spec_has_name_leaf(d@))
}

/// Whether the root directory holds a unit directory with a model name.
pub open spec fn spec_root_has_name(entries: Seq<ConfigEntry>) -> bool {
    exists|i: int|
        0 <= i < entries.len() && entries[i].key == KEY_UNIT && (entries[i].data
            matches ConfigEntryData::Directory(d) && spec_unit_has_name(d@))
}

/// Whether a third-level directory holds a bus-dependent-info leaf whose
/// text is exactly `t`.
pub open spec fn spec_name_leaf_is(entries: Seq<ConfigEntry>, t: Seq<u8>) -> bool {
    exists|k: int|
        0 <= k < entries.len() && entries[k].key == KEY_BUS_DEPENDENT_INFO
            && (entries[k].data matches ConfigEntryData::Leaf(l) && spec_leaf_text_is(l@, t))
}

/// Whether a unit directory holds a dependent-info directory whose model
/// name is exactly `t`.
pub open spec fn spec_unit_name_is(entries: Seq<ConfigEntry>, t: Seq<u8>) -> bool {
    exists|j: int|
        0 <= j < entries.len() && entries[j].key == KEY_DEPENDENT_INFO
            && (entries[j].data matches ConfigEntryData::Directory(d) && spec_name_leaf_is(
            d@,
            t,
        ))
}

/// Whether the root directory names the model exactly `t`.
pub open spec fn spec_root_name_is(entries: Seq<ConfigEntry>, t: Seq<u8>) -> bool {
    exists|i: int|
        0 <= i < entries.len() && entries[i].key == KEY_UNIT && (entries[i].data
            matches ConfigEntryData::Directory(d) && spec_unit_name_is(d@, t))
}

/// The text of the first textual bus-dependent-info leaf at or after
/// `from` in a third-level directory, if any.
pub open spec fn spec_first_name_leaf(entries: Seq<ConfigEntry>, from: int) -> Option<Seq<u8>>
    decreases entries.len() - from,
{
    if from < 0 || from >= entries.len() {
        None
    } else {
        match entries[from].data {
            ConfigEntryData::Leaf(l) => if entries[from].key == KEY_BUS_DEPENDENT_INFO
                && spec_textual_leaf(l@) {
                Some(spec_leaf_text(l@))
            } else {
                spec_first_name_leaf(entries, from + 1)
            },
            _ => spec_first_name_leaf(entries, from + 1),
        }
    }
}

/// The model name of the first dependent-info directory at or after
/// `from` in a unit directory that carries one, if any.
pub open spec fn spec_first_unit_name(entries: Seq<ConfigEntry>, from: int) -> Option<Seq<u8>>
    decreases entries.len() - from,
{
    if from < 0 || from >= entries.len() {
        None
    } else {
        match entries[from].data {
            ConfigEntryData::Directory(d) => if entries[from].key == KEY_DEPENDENT_INFO
                && spec_first_name_leaf(d@, 0) is Some {
                spec_first_name_leaf(d@, 0)
            } else {
                spec_first_unit_name(entries, from + 1)
            },
            _ => spec_first_unit_name(entries, from + 1),
        }
    }
}

/// The model name of the first unit directory at or after `from` in the
/// root directory that carries one, if any.
pub open spec fn spec_first_root_name(entries: Seq<ConfigEntry>, from: int) -> Option<Seq<u8>>
    decreases entries.len() - from,
{
    if from < 0 || from >= entries.len() {
        None
    } else {
        match entries[from].data {
            ConfigEntryData::Directory(d) => if entries[from].key == KEY_UNIT
                && spec_first_unit_name(d@, 0) is Some {
                spec_first_unit_name(d@, 0)
            } else {
                spec_first_root_name(entries, from + 1)
            },
            _ => spec_first_root_name(entries, from + 1),
        }
    }
}

/// Find the model name in the root entries of a configuration ROM: the
/// text of the first textual bus-dependent-info leaf of a dependent-info
/// directory of a unit directory.  A ROM without such a leaf is reported
/// as ill-formed.
pub fn detect_model_name(entries: &Vec<ConfigEntry>) -> (r: Result<Vec<u8>, ProtocolError>)
    ensures
        r is Ok <==> spec_root_has_name(entries@),
        r is Err ==> r == Err::<Vec<u8>, ProtocolError>(ProtocolError::DecodeViolation),
        r matches Ok(t) ==> spec_root_name_is(entries@, t@),
        r matches Ok(t) ==> spec_first_root_name(entries@, 0) == Some(t@),
        r is Err ==> spec_first_root_name(entries@, 0) is None,
{
    let root_count: usize = entries.len();
    let mut i: usize = 0;
    while i < root_count
        invariant
            root_count == entries@.len(),
            0 <= i <= root_count,
            forall|w: int|
                0 <= w < i ==> !(entries@[w].key == KEY_UNIT && (entries@[w].data
                    matches ConfigEntryData::Directory(d) && spec_unit_has_name(d@))),
            spec_first_root_name(entries@, 0) == spec_first_root_name(entries@, i as int),
        decreases root_count - i,
    {
        let entry = &entries[i];
        if entry.key == KEY_UNIT {
            if let ConfigEntryData::Directory(dir) = &entry.data {
                let dir_count: usize = dir.len();
                let mut j: usize = 0;
                while j < dir_count
                    invariant
                        root_count == entries@.len(),
                        i < root_count,
                        entries@[i as int].key == KEY_UNIT,
                        entries@[i as int].data == ConfigEntryData::Directory(*dir),
                        dir_count == dir@.len(),
                        0 <= j <= dir_count,
                        forall|w: int|
                            0 <= w < j ==> !(dir@[w].key == KEY_DEPENDENT_INFO && (dir@[w].data
                                matches ConfigEntryData::Directory(d2) && spec_has_name_leaf(
                                d2@,
                            ))),
                        spec_first_root_name(entries@, 0) == spec_first_root_name(
                            entries@,
                            i as int,
                        ),
                        spec_first_unit_name(dir@, 0) == spec_first_unit_name(dir@, j as int),
                    decreases dir_count - j,
                {
                    let de = &dir[j];
                    if de.key == KEY_DEPENDENT_INFO {
                        if let ConfigEntryData::Directory(dir2) = &de.data {
                            let dir2_count: usize = dir2.len();
                            let mut k: usize = 0;
                            while k < dir2_count
                                invariant
                                    root_count == entries@.len(),
                                    i < root_count,
                                    entries@[i as int].key == KEY_UNIT,
                                    entries@[i as int].data == ConfigEntryData::Directory(*dir),
                                    j < dir@.len(),
                                    dir@[j as int].key == KEY_DEPENDENT_INFO,
                                    dir@[j as int].data == ConfigEntryData::Directory(*dir2),
                                    dir2_count == dir2@.len(),
                                    0 <= k <= dir2_count,
                                    forall|w: int|
                                        0 <= w < k ==> !(dir2@[w].key == KEY_BUS_DEPENDENT_INFO
                                            && (dir2@[w].data matches ConfigEntryData::Leaf(l)
                                            && spec_textual_leaf(l@))),
                                    spec_first_root_name(entries@, 0) == spec_first_root_name(
                                        entries@,
                                        i as int,
                                    ),
                                    spec_first_unit_name(dir@, 0) == spec_first_unit_name(
                                        dir@,
                                        j as int,
                                    ),
                                    spec_first_name_leaf(dir2@, 0) == spec_first_name_leaf(
                                        dir2@,
                                        k as int,
                                    ),
                                decreases dir2_count - k,
                            {
                                let le = &dir2[k];
                                if le.key == KEY_BUS_DEPENDENT_INFO {
                                    if let ConfigEntryData::Leaf(l) = &le.data {
                                        if let Some(text) = parse_textual_leaf(l) {
                                            proof {
                                                assert(spec_has_name_leaf(dir2@));
                                                assert(spec_unit_has_name(dir@));
                                                assert(spec_root_has_name(entries@));
                                                assert(spec_name_leaf_is(dir2@, text@));
                                                assert(spec_unit_name_is(dir@, text@));
                                                assert(spec_root_name_is(entries@, text@));
                                                assert(spec_first_name_leaf(dir2@, k as int)
                                                    == Some(text@));
                                                assert(spec_first_name_leaf(dir2@, 0) == Some(
                                                    text@,
                                                ));
                                                assert(spec_first_unit_name(dir@, j as int)
                                                    == Some(text@));
                                                assert(spec_first_unit_name(dir@, 0) == Some(
                                                    text@,
                                                ));
                                                assert(spec_first_root_name(entries@, i as int)
                                                    == Some(text@));
                                                assert(spec_first_root_name(entries@, 0)
                                                    == Some(text@));
                                            }
                                            return Ok(text);
                                        }
                                    }
                                }
                                proof {
                                    assert(spec_first_name_leaf(dir2@, k as int)
                                        == spec_first_name_leaf(dir2@, k + 1));
                                }
                                k = k + 1;
                            }
                            proof {
                                assert(spec_first_name_leaf(dir2@, dir2_count as int) is None);
                            }
                        }
                    }
                    proof {
                        assert(spec_first_unit_name(dir@, j as int) == spec_first_unit_name(
                            dir@,
                            j + 1,
                        ));
                    }
                    j = j + 1;
                }
                proof {
                    assert(spec_first_unit_name(dir@, dir_count as int) is None);
                }
            }
        }
        proof {
            assert(spec_first_root_name(entries@, i as int) == spec_first_root_name(
                entries@,
                i + 1,
            ));
        }
        i = i + 1;
    }
    proof {
        assert(spec_first_root_name(entries@, root_count as int) is None);
    }
    Err(ProtocolError::DecodeViolation)
}

} // verus!
