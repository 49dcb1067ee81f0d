use vstd::prelude::*;

use crate::paths::{has_svg_extension, join, joined, name_has_svg_extension, png_name, png_name_of};

verus! {

/// One immediate entry of the input directory, as the directory listing
/// reports it: its bare file name and whether it is a regular file.
pub struct DirEntry {
    pub name: Vec<u8>,
    pub is_file: bool,
}

/// One conversion to perform: the full path of the source document and the
/// full path the PNG raster is to be written to.
pub struct ConversionRequest {
    pub source: Vec<u8>,
    pub dest: Vec<u8>,
}

/// The pair of paths a request holds, as sequences.
pub open spec fn request_paths(r: ConversionRequest) -> (Seq<u8>, Seq<u8>) {
    (r.source@, r.dest@)
}

/// Whether a directory entry is an eligible source: a regular file whose
/// name carries the extension "svg".
pub open spec fn eligible_entry(e: DirEntry) -> bool {
    e.is_file && has_svg_extension(e.name@)
}

/// The source and destination paths for an eligible entry: the source sits
/// in the input directory, the destination flat in the output directory
/// under the entry's stem with ".png".
pub open spec fn entry_request(input_dir: Seq<u8>, output_dir: Seq<u8>, e: DirEntry) -> (
    Seq<u8>,
    Seq<u8>,
) {
    (joined(input_dir, e.name@), joined(output_dir, png_name_of(e.name@)))
}

/// The conversions a batch pass performs over a directory listing: one per
/// eligible entry, in listing order; every other entry is passed over.
pub open spec fn batch_plan(input_dir: Seq<u8>, output_dir: Seq<u8>, entries: Seq<DirEntry>) -> Seq<
    (Seq<u8>, Seq<u8>),
>
    decreases entries.len(),
{
    if entries.len() == 0 {
        Seq::empty()
    } else {
        let rest = batch_plan(input_dir, output_dir, entries.drop_last());
        if eligible_entry(entries.last()) {
            rest.push(entry_request(input_dir, output_dir, entries.last()))
        } else {
            rest
        }
    }
}

/// Plans a batch pass: keeps exactly the eligible entries of the listing, in
/// order, and pairs each with its destination path.
pub fn plan_batch(input_dir: &Vec<u8>, output_dir: &Vec<u8>, entries: &Vec<DirEntry>) -> (r: Vec<
    ConversionRequest,
>)
    ensures
        r@.map_values(|q: ConversionRequest| request_paths(q)) == batch_plan(
            input_dir@,
            output_dir@,
            entries@,
        ),
{
    let mut out: Vec<ConversionRequest> = Vec::new();
    let mut k: usize = 0;
    while k < entries.len()
        invariant
            k <= entries.len(),
            out@.map_values(|q: ConversionRequest| request_paths(q)) == batch_plan(
                input_dir@,
                output_dir@,
                entries@.take(k as int),
            ),
        decreases entries.len() - k,
    {
        let e = &entries[k];
        let ghost prev = out@;
        if e.is_file && name_has_svg_extension(&e.name) {
            let source = join(input_dir, &e.name);
            let dest_name = png_name(&e.name);
            let dest = join(output_dir, &dest_name);
            out.push(ConversionRequest { source, dest });
        }
        proof {
            assert(entries@.take(k + 1).drop_last() =~= entries@.take(k as int));
            assert(entries@.take(k + 1).last() == entries@[k as int]);
            if eligible_entry(entries@[k as int]) {
                assert(out@.map_values(|q: ConversionRequest| request_paths(q)) =~= prev.map_values(
                    |q: ConversionRequest| request_paths(q),
                ).push(entry_request(input_dir@, output_dir@, entries@[k as int])));
            }
        }
        k = k + 1;
    }
    proof {
        assert(entries@.take(entries@.len() as int) =~= entries@);
    }
    out
}

/// A batch pass over a listing of n eligible and m ineligible entries plans
/// exactly n conversions: the plan is the listing filtered to its eligible
/// entries, each mapped to its source path and its stem-with-".png"
/// destination path.
pub proof fn lemma_batch_plan_is_filtered(
    input_dir: Seq<u8>,
    output_dir: Seq<u8>,
    entries: Seq<DirEntry>,
)
    ensures
        batch_plan(input_dir, output_dir, entries) == entries.filter(
            |e: DirEntry| eligible_entry(e),
        ).map_values(|e: DirEntry| entry_request(input_dir, output_dir, e)),
        batch_plan(input_dir, output_dir, entries).len() == entries.filter(
            |e: DirEntry| eligible_entry(e),
        ).len(),
    decreases entries.len(),
{
    reveal(Seq::filter);
    let pred = |e: DirEntry| eligible_entry(e);
    let to_req = |e: DirEntry| entry_request(input_dir, output_dir, e);
    if entries.len() == 0 {
        assert(batch_plan(input_dir, output_dir, entries) =~= entries.filter(pred).map_values(
            to_req,
        ));
    } else {
        lemma_batch_plan_is_filtered(input_dir, output_dir, entries.drop_last());
        assert(entries.filter(pred).map_values(to_req) =~= batch_plan(
            input_dir,
            output_dir,
            entries,
        ));
    }
}

/// A batch pass over an empty directory listing plans no conversion at all.
pub proof fn lemma_batch_plan_empty(input_dir: Seq<u8>, output_dir: Seq<u8>)
    ensures
        batch_plan(input_dir, output_dir, Seq::<DirEntry>::empty()) == Seq::<(
            Seq<u8>,
            Seq<u8>,
        )>::empty(),
{
    assert(batch_plan(input_dir, output_dir, Seq::<DirEntry>::empty()) =~= Seq::<(
        Seq<u8>,
        Seq<u8>,
    )>::empty());
}

} // verus!
