//! Workspace preset selections: composing a base selection with added and
//! removed packs, and the provenance report of an exported selection.
use vstd::prelude::*;
use sha2::Digest;
use crate::text::{
    add_unique, appended_new, contains_str, insert_sorted, no_duplicates, owned, remove_all, set_of,
    strictly_sorted, views, without,
};

verus! {

/// The effective composition of a preset and packs for a workspace.
#[derive(Debug, Clone)]
pub struct WorkspacePresetSelection {
    pub preset_id: String,
    pub packs: Vec<String>,
    pub added_packs: Vec<String>,
}

/// Why a composition was refused.
#[derive(Debug, Clone)]
pub enum SelectionError {
    /// A pack id that the registry does not know.
    UnknownPack(String),
}

impl WorkspacePresetSelection {
    /// The added packs are the selection's packs that its base preset, with
    /// packs `base`, does not carry, in selection order.
    pub open spec fn added_match_base(&self, base: Seq<Seq<char>>) -> bool {
        views(self.added_packs@) == without(views(self.packs@), base)
    }

    /// Packs are listed once each and all of them are known.
    pub open spec fn wf(&self, known: Set<Seq<char>>) -> bool {
        &&& no_duplicates(self.packs@)
        &&& no_duplicates(self.added_packs@)
        &&& set_of(self.packs@).subset_of(known)
        &&& set_of(self.added_packs@).subset_of(set_of(self.packs@))
    }
}

/// The first pack id in `ids` that `known` lacks.
fn first_unknown(ids: &[String], known: &[String]) -> (r: Option<usize>)
    ensures
        r is None ==> set_of(ids@).subset_of(set_of(known@)),
        r matches Some(i) ==> i < ids@.len() && !set_of(known@).contains(ids@[i as int]@),
{
    let mut i: usize = 0;
    while i < ids.len()
        invariant
            i <= ids@.len(),
            forall|j: int| 0 <= j < i ==> set_of(known@).contains(#[trigger] ids@[j]@),
        decreases ids@.len() - i,
    {
        if !contains_str(known, ids[i].as_str()) {
            return Some(i);
        }
        i = i + 1;
    }
    proof {
        assert forall|s: Seq<char>| set_of(ids@).contains(s) implies set_of(known@).contains(s) by {
            let k = choose|k: int| 0 <= k < views(ids@).len() && #[trigger] views(ids@)[k] == s;
            assert(ids@[k]@ == s);
        }
    }
    None
}

/// Starts from the base selection's packs, appends each added pack that is
/// not there yet, drops each removed pack (absent ones are no error), and
/// records as added the packs that the base preset does not carry. An added
/// pack that `known_packs` lacks is refused.
pub fn compose_selection(
    base: &WorkspacePresetSelection,
    base_preset_packs: &[String],
    add_packs: &[String],
    remove_packs: &[String],
    known_packs: &[String],
) -> (r: Result<WorkspacePresetSelection, SelectionError>)
    requires
        base.wf(set_of(known_packs@)),
    ensures
        r is Err <==> !set_of(add_packs@).subset_of(set_of(known_packs@)),
        r matches Err(SelectionError::UnknownPack(id)) ==> set_of(add_packs@).contains(id@)
            && !set_of(known_packs@).contains(id@),
        r matches Ok(s) ==> {
            &&& s.wf(set_of(known_packs@))
            &&& s.preset_id@ == base.preset_id@
            &&& set_of(s.packs@) == set_of(base.packs@).union(set_of(add_packs@)).difference(set_of(remove_packs@))
            &&& set_of(s.added_packs@) == set_of(s.packs@).difference(set_of(base_preset_packs@))
            &&& views(s.packs@) == without(appended_new(views(base.packs@), views(add_packs@)), views(remove_packs@))
            &&& s.added_match_base(views(base_preset_packs@))
        },
{
    match first_unknown(add_packs, known_packs) {
        Some(i) => {
            assert(views(add_packs@)[i as int] == add_packs@[i as int]@);
            return Err(SelectionError::UnknownPack(add_packs[i].clone()));
        },
        None => {},
    }
    let mut packs = base.packs.clone();
    assert(views(packs@) =~= views(base.packs@));
    add_unique(&mut packs, add_packs);
    remove_all(&mut packs, remove_packs);
    let mut added = packs.clone();
    assert(views(added@) =~= views(packs@));
    remove_all(&mut added, base_preset_packs);
    let r = WorkspacePresetSelection { preset_id: base.preset_id.clone(), packs, added_packs: added };
    assert(set_of(r.packs@).subset_of(set_of(known_packs@)));
    assert(set_of(r.added_packs@).subset_of(set_of(r.packs@)));
    Ok(r)
}

/// The packs of `a` that `b` lacks, each once, in ascending order.
pub fn sorted_difference(a: &[String], b: &[String]) -> (r: Vec<String>)
    ensures
        strictly_sorted(views(r@)),
        set_of(r@) == set_of(a@).difference(set_of(b@)),
{
    let mut out: Vec<String> = Vec::new();
    let mut i: usize = 0;
    assert(set_of(out@) =~= set_of(a@.take(0)).difference(set_of(b@)));
    while i < a.len()
        invariant
            i <= a@.len(),
            strictly_sorted(views(out@)),
            set_of(out@) == set_of(a@.take(i as int)).difference(set_of(b@)),
        decreases a@.len() - i,
    {
        let found = contains_str(b, a[i].as_str());
        let ghost prev = set_of(out@);
        if !found {
            insert_sorted(&mut out, a[i].clone());
        }
        proof {
            let t = a@.take(i + 1);
            assert(views(t) =~= views(a@.take(i as int)).push(a@[i as int]@));
            assert forall|x: Seq<char>| #[trigger] set_of(t).contains(x) == (set_of(a@.take(i as int)).contains(x) || x == a@[i as int]@) by {
                crate::text::lemma_push_contains(views(a@.take(i as int)), a@[i as int]@, x);
            }
            assert(set_of(out@) =~= set_of(t).difference(set_of(b@)));
        }
        i = i + 1;
    }
    assert(a@.take(a@.len() as int) =~= a@);
    out
}

/// How two selections differ.
#[derive(Debug, Clone)]
pub struct SelectionDiff {
    pub before_preset_id: Option<String>,
    pub after_preset_id: String,
    pub added_packs: Vec<String>,
    pub removed_packs: Vec<String>,
}

/// Compares two selections as sets of packs; the added and removed packs
/// come in ascending order. No earlier selection counts as no packs.
pub fn selection_diff(before: Option<&WorkspacePresetSelection>, after: &WorkspacePresetSelection) -> (r: SelectionDiff)
    ensures
        r.after_preset_id == after.preset_id,
        match before {
            Some(b) => r.before_preset_id == Some(b.preset_id)
                && set_of(r.added_packs@) == set_of(after.packs@).difference(set_of(b.packs@))
                && set_of(r.removed_packs@) == set_of(b.packs@).difference(set_of(after.packs@)),
            None => r.before_preset_id is None
                && set_of(r.added_packs@) == set_of(after.packs@)
                && r.removed_packs@.len() == 0,
        },
        strictly_sorted(views(r.added_packs@)),
        strictly_sorted(views(r.removed_packs@)),
{
    match before {
        Some(b) => SelectionDiff {
            before_preset_id: Some(b.preset_id.clone()),
            after_preset_id: after.preset_id.clone(),
            added_packs: sorted_difference(after.packs.as_slice(), b.packs.as_slice()),
            removed_packs: sorted_difference(b.packs.as_slice(), after.packs.as_slice()),
        },
        None => {
            let none: Vec<String> = Vec::new();
            let added = sorted_difference(after.packs.as_slice(), none.as_slice());
            assert(set_of(none@) =~= Set::empty());
            assert(set_of(added@) =~= set_of(after.packs@));
            let removed: Vec<String> = Vec::new();
            assert(views(removed@) =~= Seq::<Seq<char>>::empty());
            SelectionDiff {
                before_preset_id: None,
                after_preset_id: after.preset_id.clone(),
                added_packs: added,
                removed_packs: removed,
            }
        },
    }
}

/// The elements of `v` that `items` holds, in `v`'s order.
pub open spec fn kept_in(v: Seq<Seq<char>>, items: Seq<Seq<char>>) -> Seq<Seq<char>>
    decreases v.len(),
{
    if v.len() == 0 {
        v
    } else {
        let w = kept_in(v.drop_last(), items);
        if items.contains(v.last()) { w.push(v.last()) } else { w }
    }
}

/// The packs of the selection that the registry marks as needing
/// confirmation, in selection order.
pub fn risky_pack_ids(selection: &WorkspacePresetSelection, risky_registry: &[String]) -> (r: Vec<String>)
    ensures
        views(r@) == kept_in(views(selection.packs@), views(risky_registry@)),
{
    let mut risky: Vec<String> = Vec::new();
    let mut i: usize = 0;
    let ghost packs = views(selection.packs@);
    assert(packs.take(0) =~= Seq::<Seq<char>>::empty());
    while i < selection.packs.len()
        invariant
            i <= selection.packs@.len(),
            packs == views(selection.packs@),
            views(risky@) == kept_in(packs.take(i as int), views(risky_registry@)),
        decreases selection.packs@.len() - i,
    {
        let ghost prev = views(risky@);
        if contains_str(risky_registry, selection.packs[i].as_str()) {
            risky.push(selection.packs[i].clone());
            assert(views(risky@) =~= prev.push(packs[i as int]));
        }
        proof {
            let t = packs.take(i + 1);
            assert(t.drop_last() =~= packs.take(i as int));
            assert(t.last() == packs[i as int]);
        }
        i = i + 1;
    }
    assert(packs.take(packs.len() as int) =~= packs);
    risky
}

/// The on-disk preset payload: `schema_version`, `id` and `packs`.
#[derive(Debug, Clone)]
pub struct PresetPayload {
    pub schema_version: u32,
    pub id: String,
    pub packs: Vec<String>,
}

/// How an imported payload meets the current selection.
#[derive(Debug, Clone, Copy, PartialEq, Eq, Structural)]
pub enum ImportMode {
    /// Replace the current selection.
    Overwrite,
    /// Add the payload's packs to the current selection.
    Merge,
    /// Use the payload only when there is no current selection.
    Fill,
}

/// The payload that stores a selection.
pub fn selection_to_document(selection: &WorkspacePresetSelection) -> (r: PresetPayload)
    ensures
        r.schema_version == 1,
        r.id == selection.preset_id,
        views(r.packs@) == views(selection.packs@),
{
    let packs = selection.packs.clone();
    assert(views(packs@) =~= views(selection.packs@));
    PresetPayload { schema_version: 1, id: selection.preset_id.clone(), packs }
}

fn fresh_selection(preset_id: String, packs: &[String], base_preset_packs: &[String]) -> (r: WorkspacePresetSelection)
    ensures
        r.preset_id == preset_id,
        views(r.packs@) == appended_new(Seq::empty(), views(packs@)),
        r.added_match_base(views(base_preset_packs@)),
        set_of(r.packs@) == set_of(packs@),
        set_of(r.added_packs@) == set_of(r.packs@).difference(set_of(base_preset_packs@)),
        no_duplicates(r.packs@),
        no_duplicates(r.added_packs@),
{
    let mut list: Vec<String> = Vec::new();
    assert(views(list@) =~= Seq::<Seq<char>>::empty());
    assert(set_of(list@) =~= Set::empty());
    add_unique(&mut list, packs);
    assert(set_of(list@) =~= set_of(packs@));
    let mut added = list.clone();
    assert(views(added@) =~= views(list@));
    remove_all(&mut added, base_preset_packs);
    WorkspacePresetSelection { preset_id, packs: list, added_packs: added }
}

/// Applies a payload under `mode`. The packs of an overwrite are the
/// payload's, each once; a merge appends the payload's new packs to the
/// current ones and keeps the current preset; a fill keeps a current
/// selection and otherwise overwrites. Added packs are those that the
/// selection's base preset (`base_preset_packs`) does not carry. A payload
/// naming a pack that `known_packs` lacks is refused.
pub fn import_selection(
    payload: &PresetPayload,
    mode: ImportMode,
    current: Option<&WorkspacePresetSelection>,
    base_preset_packs: &[String],
    known_packs: &[String],
) -> (r: Result<WorkspacePresetSelection, SelectionError>)
    requires
        current matches Some(c) ==> c.wf(set_of(known_packs@)),
    ensures
        r is Err <==> !set_of(payload.packs@).subset_of(set_of(known_packs@)),
        r matches Err(SelectionError::UnknownPack(id)) ==> set_of(payload.packs@).contains(id@)
            && !set_of(known_packs@).contains(id@),
        r matches Ok(s) ==> {
            &&& s.wf(set_of(known_packs@))
            &&& s.added_match_base(views(base_preset_packs@))
            &&& match (mode, current) {
                (ImportMode::Merge, Some(c)) => s.preset_id == c.preset_id
                    && views(s.packs@) == appended_new(views(c.packs@), views(payload.packs@)),
                (ImportMode::Fill, Some(c)) => s.preset_id == c.preset_id && views(s.packs@) == views(c.packs@),
                _ => s.preset_id == payload.id
                    && views(s.packs@) == appended_new(Seq::empty(), views(payload.packs@)),
            }
        },
{
    match first_unknown(payload.packs.as_slice(), known_packs) {
        Some(i) => {
            assert(views(payload.packs@)[i as int] == payload.packs@[i as int]@);
            return Err(SelectionError::UnknownPack(payload.packs[i].clone()));
        },
        None => {},
    }
    let r = match (mode, current) {
        (ImportMode::Merge, Some(c)) => {
            let mut packs = c.packs.clone();
            assert(views(packs@) =~= views(c.packs@));
            assert(set_of(packs@) =~= set_of(c.packs@));
            add_unique(&mut packs, payload.packs.as_slice());
            let mut added = packs.clone();
            assert(views(added@) =~= views(packs@));
            assert(set_of(added@) =~= set_of(packs@));
            remove_all(&mut added, base_preset_packs);
            WorkspacePresetSelection { preset_id: c.preset_id.clone(), packs, added_packs: added }
        },
        (ImportMode::Fill, Some(c)) => {
            let packs = c.packs.clone();
            assert(views(packs@) =~= views(c.packs@));
            assert(set_of(packs@) =~= set_of(c.packs@));
            let mut added = c.packs.clone();
            assert(views(added@) =~= views(c.packs@));
            assert(set_of(added@) =~= set_of(c.packs@));
            remove_all(&mut added, base_preset_packs);
            WorkspacePresetSelection { preset_id: c.preset_id.clone(), packs, added_packs: added }
        },
        _ => fresh_selection(payload.id.clone(), payload.packs.as_slice(), base_preset_packs),
    };
    assert(set_of(r.packs@).subset_of(set_of(known_packs@)));
    assert(set_of(r.added_packs@).subset_of(set_of(r.packs@)));
    Ok(r)
}

/// Appending the elements of a duplicate-free list to nothing gives the list.
pub proof fn lemma_appended_new_of_distinct(v: Seq<String>)
    requires
        no_duplicates(v),
    ensures
        appended_new(Seq::empty(), views(v)) == views(v),
    decreases v.len(),
{
    if v.len() > 0 {
        let init = v.drop_last();
        assert(no_duplicates(init));
        lemma_appended_new_of_distinct(init);
        assert(views(v).drop_last() =~= views(init));
        assert(views(v).last() == v.last()@);
        if views(init).contains(v.last()@) {
            let k = choose|k: int| 0 <= k < views(init).len() && #[trigger] views(init)[k] == v.last()@;
            assert(v[k]@ == v[v.len() - 1]@);
        }
        assert(views(init).push(v.last()@) =~= views(v));
    }
}

/// Storing a well-formed selection and importing the payload with
/// `Overwrite` (against the same base preset) gives the selection back.
pub proof fn lemma_overwrite_import_round_trip(
    selection: WorkspacePresetSelection,
    payload: PresetPayload,
    imported: WorkspacePresetSelection,
    known: Set<Seq<char>>,
    base_preset_packs: Seq<Seq<char>>,
)
    requires
        selection.wf(known),
        selection.added_match_base(base_preset_packs),
        payload.id == selection.preset_id,
        views(payload.packs@) == views(selection.packs@),
        imported.preset_id == payload.id,
        views(imported.packs@) == appended_new(Seq::empty(), views(payload.packs@)),
        imported.added_match_base(base_preset_packs),
    ensures
        imported.preset_id == selection.preset_id,
        views(imported.packs@) == views(selection.packs@),
        views(imported.added_packs@) == views(selection.added_packs@),
{
    lemma_appended_new_of_distinct(selection.packs@);
}

/// Where an exported selection came from.
#[derive(Debug, Clone, Copy, PartialEq, Eq, Structural)]
pub enum PresetExportSourceKind {
    OfficialPreset,
    WorkspaceSelection,
    DefaultSelection,
}

/// The machine report of `preset export`.
#[derive(Debug, Clone)]
pub struct PresetExportReport {
    pub schema_version: u32,
    pub report_type: String,
    pub source_kind: PresetExportSourceKind,
    pub requested_preset: Option<String>,
    pub selection: WorkspacePresetSelection,
    pub target_path: String,
    pub bytes_written: usize,
    pub payload_sha256: String,
    pub write_performed: bool,
}

/// What the SHA-256 digest of some bytes is.
pub uninterp spec fn sha256_of(data: Seq<u8>) -> Seq<u8>;

/// Relies on `sha2::Sha256::digest`: the SHA-256 digest of the bytes, 32 bytes long.
#[verifier::external_body]
fn sha256_digest(data: &[u8]) -> (r: Vec<u8>)
    ensures
        r@ == sha256_of(data@),
        r@.len() == 32,
{
    sha2::Sha256::digest(data).to_vec()
}

pub open spec fn hex_digit_char(d: nat) -> char {
    if d < 10 { ((d + 48) as u8) as char } else { ((d + 87) as u8) as char }
}

/// Two lower-case hex digits per byte, as `{:x}` writes a digest.
pub open spec fn lower_hex(b: Seq<u8>) -> Seq<char>
    decreases b.len(),
{
    if b.len() == 0 {
        Seq::empty()
    } else {
        lower_hex(b.drop_last()) + seq![hex_digit_char((b.last() / 16) as nat), hex_digit_char((b.last() % 16) as nat)]
    }
}

fn hex_digit_exec(d: u8) -> (c: char)
    requires
        d < 16,
    ensures
        c == hex_digit_char(d as nat),
{
    if d < 10 { (d + 48) as char } else { (d + 87) as char }
}

/// Lower-case hex of the bytes.
pub fn to_lower_hex(b: &[u8]) -> (r: String)
    ensures
        r@ == lower_hex(b@),
{
    let mut s = String::new();
    let mut i: usize = 0;
    assert(b@.take(0) =~= Seq::<u8>::empty());
    while i < b.len()
        invariant
            i <= b@.len(),
            s@ == lower_hex(b@.take(i as int)),
        decreases b@.len() - i,
    {
        let x = b[i];
        crate::text::push_char(&mut s, hex_digit_exec(x / 16));
        crate::text::push_char(&mut s, hex_digit_exec(x % 16));
        assert(b@.take(i + 1).drop_last() =~= b@.take(i as int));
        assert(b@.take(i + 1).last() == x);
        assert(s@ =~= lower_hex(b@.take(i + 1)));
        i = i + 1;
    }
    assert(b@.take(b@.len() as int) =~= b@);
    s
}

/// The export report for `payload` written (or not) to `target_path`: its
/// length and the hex SHA-256 of exactly those bytes.
pub fn build_export_report(
    source_kind: PresetExportSourceKind,
    requested_preset: Option<String>,
    selection: WorkspacePresetSelection,
    target_path: String,
    payload: &[u8],
    write_performed: bool,
) -> (r: PresetExportReport)
    ensures
        r.schema_version == 1,
        r.report_type@ == "preset.export"@,
        r.source_kind == source_kind,
        r.requested_preset == requested_preset,
        r.selection == selection,
        r.target_path == target_path,
        r.bytes_written == payload@.len(),
        r.payload_sha256@ == lower_hex(sha256_of(payload@)),
        r.write_performed == write_performed,
{
    let digest = sha256_digest(payload);
    PresetExportReport {
        schema_version: crate::consent::PRESET_EXPORT_REPORT_SCHEMA_VERSION,
        report_type: owned(crate::consent::PRESET_EXPORT_REPORT_TYPE),
        source_kind,
        requested_preset,
        selection,
        target_path,
        bytes_written: payload.len(),
        payload_sha256: to_lower_hex(digest.as_slice()),
        write_performed,
    }
}

} // verus!
