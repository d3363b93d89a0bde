use vstd::prelude::*;

use crate::error::JobError;

verus! {

/// Decide the outcome of the OS call that lists the process identifiers
/// assigned to a job (and, under job nesting, to its child jobs).
///
/// The shim gives the OS a fixed-capacity buffer; `ids` is that buffer and
/// `id_count` is how many entries the OS reported in it. On success the
/// first `id_count` entries are returned in order. A zero return code
/// means the OS refused — among other causes, a membership larger than the
/// buffer, which this design reports as an error rather than retrying with
/// a bigger buffer.
pub fn process_id_list_outcome(
    return_code: i32,
    os_error: u32,
    id_count: usize,
    ids: &Vec<u64>,
) -> (r: Result<Vec<u64>, JobError>)
    requires
        id_count <= ids@.len(),
    ensures
        return_code == 0 ==> r == Err::<Vec<u64>, JobError>(JobError::GetInfoFailed(os_error)),
        return_code != 0 ==> (r matches Ok(list) && list@ == ids@.subrange(0, id_count as int)),
{
    if return_code == 0 {
        return Err(JobError::GetInfoFailed(os_error));
    }
    let mut out: Vec<u64> = Vec::new();
    let mut i: usize = 0;
    while i < id_count
        invariant
            i <= id_count,
            id_count <= ids@.len(),
            out@ == ids@.subrange(0, i as int),
        decreases id_count - i,
    {
        out.push(ids[i]);
        proof {
            assert(out@ =~= ids@.subrange(0, i + 1 as int));
        }
        i = i + 1;
    }
    Ok(out)
}

} // verus!
