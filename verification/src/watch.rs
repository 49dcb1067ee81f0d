use vstd::prelude::*;

use crate::batch::{request_paths, ConversionRequest};
use crate::paths::{dest_path, dest_path_of, eligible_path, is_eligible};

verus! {

/// What one wait on the change-notification channel delivered, reduced to
/// plain values: the subscription machinery itself stays outside.
pub enum Notification {
    /// A file was created or modified; carries the affected paths.
    Changed(Vec<Vec<u8>>),
    /// A change of any other kind (delete, rename, access, ...).
    Other,
    /// The subscription reported an error for this delivery alone.
    WatchError(String),
    /// The bounded wait elapsed without a delivery.
    Timeout,
    /// The delivery channel is closed; no further notification can come.
    Closed,
}

/// What the watch loop is to do with one notification: run these
/// conversions, then stop or keep waiting.
pub struct WatchStep {
    pub requests: Vec<ConversionRequest>,
    pub stop: bool,
}

/// The conversions a Create or Modify delivery triggers: one per eligible
/// path it carries, in delivery order, each from that path to its flat
/// destination under the output directory.
pub open spec fn changed_paths_plan(output_dir: Seq<u8>, paths: Seq<Vec<u8>>) -> Seq<
    (Seq<u8>, Seq<u8>),
>
    decreases paths.len(),
{
    if paths.len() == 0 {
        Seq::empty()
    } else {
        let rest = changed_paths_plan(output_dir, paths.drop_last());
        let p = paths.last();
        if eligible_path(p@) {
            rest.push((p@, dest_path_of(output_dir, p@)))
        } else {
            rest
        }
    }
}

/// Decides one turn of the watch loop. Only a closed channel stops the
/// loop; a Create or Modify delivery yields one conversion per eligible
/// path it carries; every other delivery — another event kind, a
/// per-delivery subscription error, a timeout — yields none.
pub fn watch_step(output_dir: &Vec<u8>, notification: Notification) -> (r: WatchStep)
    ensures
        r.stop == (notification matches Notification::Closed),
        match notification {
            Notification::Changed(paths) => r.requests@.map_values(
                |q: ConversionRequest| request_paths(q),
            ) == changed_paths_plan(output_dir@, paths@),
            _ => r.requests@.len() == 0,
        },
{
    match notification {
        Notification::Changed(paths) => {
            let mut requests: Vec<ConversionRequest> = Vec::new();
            let mut k: usize = 0;
            while k < paths.len()
                invariant
                    k <= paths.len(),
                    requests@.map_values(|q: ConversionRequest| request_paths(q))
                        == changed_paths_plan(output_dir@, paths@.take(k as int)),
                decreases paths.len() - k,
            {
                let p = &paths[k];
                let ghost prev = requests@;
                if is_eligible(p) {
                    let dest = dest_path(output_dir, p);
                    let source = crate::paths::copy_bytes(p);
                    requests.push(ConversionRequest { source, dest });
                }
                proof {
                    assert(paths@.take(k + 1).drop_last() =~= paths@.take(k as int));
                    assert(paths@.take(k + 1).last() == paths@[k as int]);
                    if eligible_path(paths@[k as int]@) {
                        assert(requests@.map_values(|q: ConversionRequest| request_paths(q))
                            =~= prev.map_values(|q: ConversionRequest| request_paths(q)).push(
                            (paths@[k as int]@, dest_path_of(output_dir@, paths@[k as int]@)),
                        ));
                    }
                }
                k = k + 1;
            }
            proof {
                assert(paths@.take(paths@.len() as int) =~= paths@);
            }
            WatchStep { requests, stop: false }
        },
        Notification::Closed => WatchStep { requests: Vec::new(), stop: true },
        _ => WatchStep { requests: Vec::new(), stop: false },
    }
}

} // verus!
