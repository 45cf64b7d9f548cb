use crate::time_conv::dos_datetime;
use crate::time_conv::dos_valid;
use crate::time_conv::parse_dos_datetime;
use crate::time_conv::DateTime;
use vstd::prelude::*;

verus! {

/// Parse an MS-DOS datetime value; see [`parse_dos_datetime`].
pub fn parse(dos_time: u32) -> (res: Result<DateTime, u32>)
    ensures
        res == if dos_valid(dos_time) {
            Ok::<DateTime, u32>(dos_datetime(dos_time))
        } else {
            Err::<DateTime, u32>(dos_time)
        },
{
    parse_dos_datetime(dos_time)
}

} // verus!
