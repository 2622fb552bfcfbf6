//! Choosing the display among the serial ports that the system reports.

use vstd::prelude::*;

verus! {

/// The USB serial number by which the display announces itself.
pub open spec fn display_serial() -> Seq<char> {
    "USB35INCHIPSV2"@
}

/// Whether a port with this USB serial number (if it has one) is the display.
pub open spec fn is_display_spec(serial: Option<String>) -> bool {
    serial matches Some(t) && t@ == display_serial()
}

/// Whether a port with this USB serial number is the display.
pub fn is_display(serial: &Option<String>) -> (r: bool)
    ensures
        r == is_display_spec(*serial),
{
    match serial {
        Some(s) => {
            let want = "USB35INCHIPSV2".to_owned();
            proof {
                reveal_strlit("USB35INCHIPSV2");
            }
            *s == want
        },
        None => false,
    }
}

/// Among ports listed with their USB serial numbers, the index of the last
/// one that is the display, or `None` if none is.
pub fn select_display(serials: &Vec<Option<String>>) -> (r: Option<usize>)
    ensures
        r is None <==> forall|i: int|
            0 <= i < serials@.len() ==> !is_display_spec(#[trigger] serials@[i]),
        r matches Some(i) ==> {
            &&& i < serials@.len()
            &&& is_display_spec(serials@[i as int])
            &&& forall|j: int|
                i < j < serials@.len() ==> !is_display_spec(#[trigger] serials@[j])
        },
{
    let mut k: usize = serials.len();
    while k > 0
        invariant
            k <= serials@.len(),
            forall|j: int|
                k <= j < serials@.len() ==> !is_display_spec(#[trigger] serials@[j]),
        decreases k,
    {
        if is_display(&serials[k - 1]) {
            return Some(k - 1);
        }
        k = k - 1;
    }
    None
}

} // verus!
