use vstd::prelude::*;

verus! {

/// The HTTP status the collector answers a write with: 400 when the payload
/// could not be encoded, 200 when it was stored, 500 when storing failed.
pub open spec fn spec_write_status(encoded: bool, stored: bool) -> u16 {
    if !encoded {
        400
    } else if stored {
        200
    } else {
        500
    }
}

/// The HTTP status the collector answers a read of a configuration override
/// with: 200 when it holds one, 404 when it does not.
pub open spec fn spec_read_status(found: bool) -> u16 {
    if found {
        200
    } else {
        404
    }
}

/// A payload that cannot be encoded is a bad request whether or not anything
/// was stored; an encoded one is answered 200 when stored and 500 when not.
pub proof fn lemma_write_status_classes(encoded: bool, stored: bool)
    ensures
        !encoded ==> spec_write_status(encoded, stored) == 400,
        encoded ==> (spec_write_status(encoded, stored) == 200 <==> stored),
        encoded && !stored ==> spec_write_status(encoded, stored) == 500,
        spec_read_status(true) == 200,
        spec_read_status(false) == 404,
{
}

/// The status of a write (received metrics, or a configuration override).
/// `stored` matters only when the payload was encoded.
pub fn write_status(encoded: bool, stored: bool) -> (status: u16)
    ensures
        status == spec_write_status(encoded, stored),
        !encoded ==> status == 400,
        encoded && stored ==> status == 200,
        encoded && !stored ==> status == 500,
{
    if !encoded {
        400
    } else if stored {
        200
    } else {
        500
    }
}

/// The status of a read of a configuration override.
pub fn read_status(found: bool) -> (status: u16)
    ensures
        status == spec_read_status(found),
        found ==> status == 200,
        !found ==> status == 404,
{
    if found {
        200
    } else {
        404
    }
}

} // verus!
