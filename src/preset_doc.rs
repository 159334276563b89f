//! Validation of preset payload documents and the aggregate validation report.
use vstd::prelude::*;
use crate::text::{contains_str, decimal, decimal_string, owned, views};

verus! {

/// What validation reads from a preset document; the caller that parsed
/// the document fills it in.
#[derive(Debug, Clone)]
pub struct PresetDocument {
    /// `schema_version`, when it is an unsigned number.
    pub schema_version: Option<u64>,
    /// `id`, when it is a string.
    pub id: Option<String>,
    /// `packs`, when it is an array: each element, when it is a string.
    pub packs: Option<Vec<Option<String>>>,
    /// `config_overrides` is absent or an object.
    pub config_overrides_ok: bool,
    /// `metadata` is absent or an object.
    pub metadata_ok: bool,
}

/// The errors of a pack list: a non-string element by its position, and an
/// unknown pack by its id.
pub open spec fn pack_errors(packs: Seq<Option<String>>, known: Seq<Seq<char>>, allow_unknown: bool) -> Seq<Seq<char>>
    decreases packs.len(),
{
    if packs.len() == 0 {
        Seq::empty()
    } else {
        let i = (packs.len() - 1) as nat;
        pack_errors(packs.drop_last(), known, allow_unknown) + match packs.last() {
            None => seq!["packs["@ + decimal(i) + "] must be a string"@],
            Some(p) => if !allow_unknown && !known.contains(p@) {
                seq!["unknown pack '"@ + p@ + "'"@]
            } else {
                Seq::empty()
            },
        }
    }
}

/// Every error of a document, in order.
pub open spec fn document_errors(d: PresetDocument, known: Seq<Seq<char>>, allow_unknown: bool) -> Seq<Seq<char>> {
    (if d.schema_version != Some(1u64) { seq!["schema_version must be 1"@] } else { Seq::empty() })
    + (if d.id is None { seq!["id must be a string"@] } else { Seq::empty() })
    + (match d.packs {
        None => seq!["packs must be an array of strings"@],
        Some(ps) => pack_errors(ps@, known, allow_unknown),
    })
    + (if !d.config_overrides_ok { seq!["config_overrides must be an object"@] } else { Seq::empty() })
    + (if !d.metadata_ok { seq!["metadata must be an object"@] } else { Seq::empty() })
}

fn push_msg(v: &mut Vec<String>, s: String)
    ensures
        views(final(v)@) == views(old(v)@).push(s@),
{
    let ghost before = v@;
    v.push(s);
    assert(views(v@) =~= views(before).push(s@));
}

/// Checks a preset document: `schema_version` is 1, `id` is a string,
/// `packs` is an array of strings that the registry knows (unless unknown
/// packs are allowed), and `config_overrides` and `metadata` are objects
/// when present.
pub fn validate_preset_document(d: &PresetDocument, known_packs: &[String], allow_unknown_packs: bool) -> (r: Vec<String>)
    ensures
        views(r@) == document_errors(*d, views(known_packs@), allow_unknown_packs),
{
    let ghost known = views(known_packs@);
    let mut errors: Vec<String> = Vec::new();
    let version_ok = match d.schema_version {
        Some(v) => v == 1,
        None => false,
    };
    if !version_ok {
        push_msg(&mut errors, owned("schema_version must be 1"));
    }
    if d.id.is_none() {
        push_msg(&mut errors, owned("id must be a string"));
    }
    assert(views(errors@) =~= (if d.schema_version != Some(1u64) { seq!["schema_version must be 1"@] } else { Seq::<Seq<char>>::empty() })
        + (if d.id is None { seq!["id must be a string"@] } else { Seq::<Seq<char>>::empty() }));
    let ghost head = views(errors@);
    match &d.packs {
        None => push_msg(&mut errors, owned("packs must be an array of strings")),
        Some(ps) => {
            let mut i: usize = 0;
            assert(ps@.take(0) =~= Seq::<Option<String>>::empty());
            assert(head + pack_errors(ps@.take(0), known, allow_unknown_packs) =~= head);
            while i < ps.len()
                invariant
                    i <= ps@.len(),
                    known == views(known_packs@),
                    views(errors@) == head + pack_errors(ps@.take(i as int), known, allow_unknown_packs),
                decreases ps@.len() - i,
            {
                let ghost before = views(errors@);
                match &ps[i] {
                    None => {
                        let mut m = owned("packs[");
                        let n = decimal_string(i as u64);
                        m.append(n.as_str());
                        m.append("] must be a string");
                        push_msg(&mut errors, m);
                    },
                    Some(p) => {
                        if !allow_unknown_packs && !contains_str(known_packs, p.as_str()) {
                            let mut m = owned("unknown pack '");
                            m.append(p.as_str());
                            m.append("'");
                            push_msg(&mut errors, m);
                        }
                    },
                }
                proof {
                    let t = ps@.take(i + 1);
                    assert(t.drop_last() =~= ps@.take(i as int));
                    assert(t.last() == ps@[i as int]);
                    assert(views(errors@) =~= head + pack_errors(t, known, allow_unknown_packs));
                }
                i = i + 1;
            }
            assert(ps@.take(ps@.len() as int) =~= ps@);
        },
    }
    let ghost mid = views(errors@);
    if !d.config_overrides_ok {
        push_msg(&mut errors, owned("config_overrides must be an object"));
    }
    if !d.metadata_ok {
        push_msg(&mut errors, owned("metadata must be an object"));
    }
    assert(views(errors@) =~= mid + (if !d.config_overrides_ok { seq!["config_overrides must be an object"@] } else { Seq::<Seq<char>>::empty() })
        + (if !d.metadata_ok { seq!["metadata must be an object"@] } else { Seq::<Seq<char>>::empty() }));
    errors
}

/// The outcome of validating one file.
#[derive(Debug, Clone)]
pub struct PresetFileValidation {
    pub path: String,
    pub format: String,
    pub ok: bool,
    pub errors: Vec<String>,
}

/// The `preset.validation` report over all files.
#[derive(Debug, Clone)]
pub struct PresetValidationReport {
    pub schema_version: u32,
    pub report_type: String,
    pub files_checked: usize,
    pub files_failed: usize,
    pub results: Vec<PresetFileValidation>,
}

pub open spec fn failed_count(rs: Seq<PresetFileValidation>) -> nat
    decreases rs.len(),
{
    if rs.len() == 0 { 0 } else { failed_count(rs.drop_last()) + if rs.last().ok { 0nat } else { 1nat } }
}

/// The outcome for one file: it passes exactly when it has no errors.
pub fn file_validation(path: String, format: String, errors: Vec<String>) -> (r: PresetFileValidation)
    ensures
        r.path == path,
        r.format == format,
        r.errors == errors,
        r.ok == (errors@.len() == 0),
{
    let ok = errors.len() == 0;
    PresetFileValidation { path, format, ok, errors }
}

/// Counts the checked and the failed files.
pub fn build_validation_report(results: Vec<PresetFileValidation>) -> (r: PresetValidationReport)
    ensures
        r.schema_version == 1,
        r.report_type@ == "preset.validation"@,
        r.files_checked == results@.len(),
        r.files_failed == failed_count(results@),
        r.results == results,
{
    let mut failed: usize = 0;
    let mut i: usize = 0;
    assert(results@.take(0) =~= Seq::<PresetFileValidation>::empty());
    while i < results.len()
        invariant
            i <= results@.len(),
            failed == failed_count(results@.take(i as int)),
            failed <= i,
        decreases results@.len() - i,
    {
        assert(results@.take(i + 1).drop_last() =~= results@.take(i as int));
        if !results[i].ok {
            failed = failed + 1;
        }
        i = i + 1;
    }
    assert(results@.take(results@.len() as int) =~= results@);
    PresetValidationReport {
        schema_version: crate::consent::PRESET_VALIDATION_SCHEMA_VERSION,
        report_type: owned(crate::consent::PRESET_VALIDATION_REPORT_TYPE),
        files_checked: results.len(),
        files_failed: failed,
        results,
    }
}

} // verus!
