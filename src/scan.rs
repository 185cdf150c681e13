//! Scanning one source unit: parse, resolve the category, render records.

use crate::category::Category;
use crate::record::{all_fit, records_of, records_spec, render, render_spec, span_error, span_fits, ScanError};
use crate::resolve::{resolve_spec, Catalog};
use crate::syntax::{parse_haskell, ParsedUnit};
use vstd::prelude::*;

verus! {

/// The output of scanning a source for a category under a display path:
/// one line per capture, in capture order; `None` when a capture's byte
/// range does not lie within the source or cuts a character.
pub open spec fn scan_spec(path: Seq<u8>, source: Seq<u8>, c: Category) -> Option<Seq<u8>> {
    let spans = resolve_spec(source, c);
    if all_fit(source, spans) {
        Some(render_spec(path, records_spec(source, spans)))
    } else {
        None
    }
}

/// Scans a parsed unit: the lines of every capture of the category, in
/// the order resolution gives them.
pub fn scan_parsed(catalog: &Catalog, path: &[u8], unit: &ParsedUnit, c: Category) -> (r: Result<Vec<u8>, ScanError>)
    requires
        catalog.wf(),
    ensures
        r.is_ok() == scan_spec(path@, unit@, c).is_some(),
        r matches Ok(out) ==> scan_spec(path@, unit@, c) == Some(out@),
        r matches Err(e) ==> exists|i: int|
            0 <= i < resolve_spec(unit@, c).len() && !span_fits(unit@, #[trigger] resolve_spec(unit@, c)[i])
                && e == span_error(unit@, resolve_spec(unit@, c)[i]),
{
    let spans = catalog.resolve(unit, c);
    let records = records_of(unit.source(), &spans)?;
    Ok(render(path, &records))
}

/// Parses a source and scans it: the result of `scan_parsed` on the
/// parsed unit.
pub fn scan(catalog: &Catalog, path: &[u8], source: Vec<u8>, c: Category) -> (r: Result<Vec<u8>, ScanError>)
    requires
        catalog.wf(),
    ensures
        r.is_ok() == scan_spec(path@, source@, c).is_some(),
        r matches Ok(out) ==> scan_spec(path@, source@, c) == Some(out@),
        r matches Err(e) ==> exists|i: int|
            0 <= i < resolve_spec(source@, c).len() && !span_fits(source@, #[trigger] resolve_spec(source@, c)[i])
                && e == span_error(source@, resolve_spec(source@, c)[i]),
{
    let unit = parse_haskell(source).unwrap();
    scan_parsed(catalog, path, &unit, c)
}

/// Scanning is a function of the display path, the source bytes and the
/// category: two scans of the same source for the same category give the
/// same output, byte for byte.
pub proof fn lemma_scan_repeatable(path: Seq<u8>, first: Seq<u8>, second: Seq<u8>, c: Category)
    requires
        first == second,
    ensures
        scan_spec(path, first, c) == scan_spec(path, second, c),
{
}

} // verus!
