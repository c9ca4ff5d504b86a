use vstd::prelude::*;

verus! {

/// How a video stream's fields are laid out, as probed from its metadata by
/// the surrounding program.
#[derive(Debug, Clone, Copy, PartialEq, Eq, Structural)]
pub enum FieldOrder {
    Progressive,
    Unknown,
    Interlaced,
}

/// Whether the deinterlacing filter goes into a re-encode: when the stream
/// is interlaced and automatic deinterlacing has not been disabled, or when
/// it is forced.
pub fn deinterlace_needed(field_order: FieldOrder, no_deinterlace: bool, force_deinterlace: bool)
    -> (r: bool)
    ensures
        r == ((field_order is Interlaced && !no_deinterlace) || force_deinterlace),
{
    (match field_order {
        FieldOrder::Interlaced => true,
        _ => false,
    } && !no_deinterlace) || force_deinterlace
}

} // verus!
