//! Monitor queries and capture over `xcap`.
//!
//! Every entry point fetches a fresh monitor list. The part that decides the
//! outcome of a query takes that list as an argument, so it is verified for
//! every list the platform may report.
use crate::error::{contains_nul, decimal, has_nul, lemma_text_not_empty, CaptureError};
use crate::image::{frame_len, CapturedImage};
use vstd::prelude::*;
use vstd::utf8::encode_utf8;
use xcap::{Monitor, XCapError};

verus! {

#[verifier::external_type_specification]
#[verifier::external_body]
pub struct ExMonitor(xcap::Monitor);

#[verifier::external_type_specification]
#[verifier::external_body]
pub struct ExXCapError(xcap::XCapError);

/// Relies on xcap::Monitor::all for the monitors connected now. What it
/// reports depends on the machine, so nothing is stated of it.
pub assume_specification[ xcap::Monitor::all ]() -> xcap::XCapResult<Vec<xcap::Monitor>>;

/// The platform's number of a monitor, as xcap::Monitor::id reports it.
pub uninterp spec fn monitor_id(m: xcap::Monitor) -> u32;

/// The platform's name of a monitor, as xcap::Monitor::name reports it.
pub uninterp spec fn monitor_name(m: xcap::Monitor) -> Seq<char>;

/// A monitor's width in pixels, as xcap::Monitor::width reports it.
pub uninterp spec fn monitor_width(m: xcap::Monitor) -> u32;

/// A monitor's height in pixels, as xcap::Monitor::height reports it.
pub uninterp spec fn monitor_height(m: xcap::Monitor) -> u32;

/// Relies on xcap::Monitor::id for the platform's number of a monitor: a
/// read of a field of the monitor, so it depends on the monitor alone.
pub assume_specification[ xcap::Monitor::id ](m: &xcap::Monitor) -> (r: u32)
    ensures
        r == monitor_id(*m),
;

/// Relies on xcap::Monitor::name for the platform's name of a monitor: a
/// borrow of a field of the monitor, so it depends on the monitor alone.
pub assume_specification[ xcap::Monitor::name ](m: &xcap::Monitor) -> (r: &str)
    ensures
        r@ == monitor_name(*m),
;

/// Relies on xcap::Monitor::width for a monitor's width in pixels: a read of
/// a field of the monitor, so it depends on the monitor alone.
pub assume_specification[ xcap::Monitor::width ](m: &xcap::Monitor) -> (r: u32)
    ensures
        r == monitor_width(*m),
;

/// Relies on xcap::Monitor::height for a monitor's height in pixels: a read
/// of a field of the monitor, so it depends on the monitor alone.
pub assume_specification[ xcap::Monitor::height ](m: &xcap::Monitor) -> (r: u32)
    ensures
        r == monitor_height(*m),
;

/// Relies on xcap::Monitor::capture_image for a frame of the monitor, handed
/// on as width, height and pixel bytes. The image is an `image::RgbaImage`,
/// whose buffer `ImageBuffer` keeps at least `width * height * 4` bytes long
/// (`ImageBuffer::from_raw` refuses a shorter one).
#[verifier::external_body]
fn capture_rgba(m: &Monitor) -> (r: Result<(u32, u32, Vec<u8>), XCapError>)
    ensures
        r matches Ok((w, h, raw)) ==> raw@.len() >= frame_len(w, h),
{
    match m.capture_image() {
        Ok(image) => {
            let (width, height) = image.dimensions();
            Ok((width, height, image.into_raw()))
        },
        Err(e) => Err(e),
    }
}

/// Relies on the `Display` impl of xcap::XCapError for the text of a failure.
#[verifier::external_body]
fn reason_of(e: &XCapError) -> String {
    e.to_string()
}

/// What a query of the monitor at `index` owes, given the list it fetched:
/// success exactly when the index is listed, else the failure that says why.
pub open spec fn query_outcome<T>(
    listing: Result<Vec<Monitor>, XCapError>,
    index: usize,
    r: Result<T, CaptureError>,
) -> bool {
    match listing {
        Ok(v) => if index < v.len() {
            r is Ok
        } else {
            r == Err::<T, CaptureError>(CaptureError::IndexOutOfBounds(index))
        },
        Err(_) => r matches Err(CaptureError::Enumeration(_)),
    }
}

/// The number of monitors in a fetched list.
pub fn count_in(listing: &Result<Vec<Monitor>, XCapError>) -> (r: Result<usize, CaptureError>)
    ensures
        match *listing {
            Ok(v) => r == Ok::<usize, CaptureError>(v.len() as usize),
            Err(_) => r matches Err(CaptureError::Enumeration(_)),
        },
{
    match listing {
        Ok(monitors) => Ok(monitors.len()),
        Err(e) => Err(CaptureError::Enumeration(reason_of(e))),
    }
}

/// The monitor at `index` in a fetched list.
pub fn monitor_in(listing: &Result<Vec<Monitor>, XCapError>, index: usize) -> (r: Result<
    &Monitor,
    CaptureError,
>)
    ensures
        query_outcome(*listing, index, r),
        r matches Ok(m) ==> listing matches Ok(v) && *m == v[index as int],
{
    match listing {
        Ok(monitors) => {
            if index < monitors.len() {
                Ok(&monitors[index])
            } else {
                Err(CaptureError::IndexOutOfBounds(index))
            }
        },
        Err(e) => Err(CaptureError::Enumeration(reason_of(e))),
    }
}

/// The name of a monitor as text fit to cross as C text: the name itself,
/// or `NameHasNul` when it holds a NUL byte.
pub fn name_text(name: &str) -> (r: Result<String, CaptureError>)
    ensures
        has_nul(encode_utf8(name@)) ==> r == Err::<String, CaptureError>(CaptureError::NameHasNul),
        !has_nul(encode_utf8(name@)) ==> (r matches Ok(s) && s@ == name@),
{
    if contains_nul(name) {
        Err(CaptureError::NameHasNul)
    } else {
        Ok(name.to_owned())
    }
}

/// The name of the monitor at `index` in a fetched list.
pub fn name_in(listing: &Result<Vec<Monitor>, XCapError>, index: usize) -> (r: Result<
    String,
    CaptureError,
>)
    ensures
        match *listing {
            Ok(v) => if index < v.len() {
                if has_nul(encode_utf8(monitor_name(v[index as int]))) {
                    r == Err::<String, CaptureError>(CaptureError::NameHasNul)
                } else {
                    r matches Ok(s) && s@ == monitor_name(v[index as int])
                }
            } else {
                r == Err::<String, CaptureError>(CaptureError::IndexOutOfBounds(index))
            },
            Err(_) => r matches Err(CaptureError::Enumeration(_)),
        },
        r matches Ok(s) ==> !has_nul(encode_utf8(s@)),
{
    match monitor_in(listing, index) {
        Ok(m) => name_text(m.name()),
        Err(e) => Err(e),
    }
}

/// The platform's number for the monitor at `index` in a fetched list.
pub fn id_in(listing: &Result<Vec<Monitor>, XCapError>, index: usize) -> (r: Result<
    u32,
    CaptureError,
>)
    ensures
        query_outcome(*listing, index, r),
        *listing is Ok && index < listing->Ok_0.len() ==> r == Ok::<u32, CaptureError>(
            monitor_id(listing->Ok_0[index as int]),
        ),
{
    match monitor_in(listing, index) {
        Ok(m) => Ok(m.id()),
        Err(e) => Err(e),
    }
}

/// The width of the monitor at `index` in a fetched list.
pub fn width_in(listing: &Result<Vec<Monitor>, XCapError>, index: usize) -> (r: Result<
    u32,
    CaptureError,
>)
    ensures
        query_outcome(*listing, index, r),
        *listing is Ok && index < listing->Ok_0.len() ==> r == Ok::<u32, CaptureError>(
            monitor_width(listing->Ok_0[index as int]),
        ),
{
    match monitor_in(listing, index) {
        Ok(m) => Ok(m.width()),
        Err(e) => Err(e),
    }
}

/// The height of the monitor at `index` in a fetched list.
pub fn height_in(listing: &Result<Vec<Monitor>, XCapError>, index: usize) -> (r: Result<
    u32,
    CaptureError,
>)
    ensures
        query_outcome(*listing, index, r),
        *listing is Ok && index < listing->Ok_0.len() ==> r == Ok::<u32, CaptureError>(
            monitor_height(listing->Ok_0[index as int]),
        ),
{
    match monitor_in(listing, index) {
        Ok(m) => Ok(m.height()),
        Err(e) => Err(e),
    }
}

/// Turns what a capture of the monitor at `index` gave into a frame: the
/// pixels of the image, or `Capture` with the reason it failed.
pub fn frame_from(index: usize, captured: Result<(u32, u32, Vec<u8>), XCapError>) -> (r: Result<
    CapturedImage,
    CaptureError,
>)
    requires
        captured matches Ok((w, h, raw)) ==> raw@.len() >= frame_len(w, h),
    ensures
        match captured {
            Ok((w, h, raw)) => r matches Ok(image) && image.width == w && image.height == h
                && image.data@ == raw@.subrange(0, frame_len(w, h)),
            Err(_) => r matches Err(CaptureError::Capture(i, _)) && i == index,
        },
        r matches Ok(image) ==> image.wf(),
{
    match captured {
        Ok((width, height, raw)) => Ok(CapturedImage::from_rgba(width, height, raw)),
        Err(e) => Err(CaptureError::Capture(index, reason_of(&e))),
    }
}

/// A frame of the monitor at `index` in a fetched list.
pub fn image_in(listing: &Result<Vec<Monitor>, XCapError>, index: usize) -> (r: Result<
    CapturedImage,
    CaptureError,
>)
    ensures
        match *listing {
            Ok(v) => if index < v.len() {
                r is Ok || (r matches Err(CaptureError::Capture(i, _)) && i == index)
            } else {
                r == Err::<CapturedImage, CaptureError>(CaptureError::InvalidIndex(index))
            },
            Err(_) => r matches Err(CaptureError::Enumeration(_)),
        },
        r matches Ok(image) ==> image.wf() && image.data@.len() == 4 * image.width * image.height,
{
    match monitor_in(listing, index) {
        Ok(m) => frame_from(index, capture_rgba(m)),
        Err(CaptureError::IndexOutOfBounds(_)) => Err(CaptureError::InvalidIndex(index)),
        Err(e) => Err(e),
    }
}

/// A query of an index past the monitors of a fetched list fails, with a
/// message that is not empty and names the index.
pub proof fn lemma_past_end_fails<T>(
    listing: Result<Vec<Monitor>, XCapError>,
    index: usize,
    r: Result<T, CaptureError>,
)
    requires
        listing matches Ok(v) && index >= v.len(),
        query_outcome(listing, index, r),
    ensures
        r matches Err(e) && e.text().len() > 0,
        r->Err_0.text() == "Monitor index out of bounds: "@ + decimal(index as nat),
{
    lemma_text_not_empty(r->Err_0);
}

/// The number of monitors connected now.
pub fn capture_monitor_count() -> (r: Result<usize, CaptureError>)
    ensures
        r is Err ==> r matches Err(CaptureError::Enumeration(_)),
{
    count_in(&Monitor::all())
}

/// The name of the monitor at `index` in the current list.
pub fn capture_monitor_name(index: usize) -> (r: Result<String, CaptureError>)
    ensures
        r matches Ok(s) ==> !has_nul(encode_utf8(s@)),
        r matches Err(e) ==> e is Enumeration || e == CaptureError::IndexOutOfBounds(index)
            || e is NameHasNul,
{
    name_in(&Monitor::all(), index)
}

/// The platform's number for the monitor at `index` in the current list.
pub fn capture_monitor_id(index: usize) -> (r: Result<u32, CaptureError>)
    ensures
        r matches Err(e) ==> e is Enumeration || e == CaptureError::IndexOutOfBounds(index),
{
    id_in(&Monitor::all(), index)
}

/// The width in pixels of the monitor at `index` in the current list.
pub fn capture_monitor_width(index: usize) -> (r: Result<u32, CaptureError>)
    ensures
        r matches Err(e) ==> e is Enumeration || e == CaptureError::IndexOutOfBounds(index),
{
    width_in(&Monitor::all(), index)
}

/// The height in pixels of the monitor at `index` in the current list.
pub fn capture_monitor_height(index: usize) -> (r: Result<u32, CaptureError>)
    ensures
        r matches Err(e) ==> e is Enumeration || e == CaptureError::IndexOutOfBounds(index),
{
    height_in(&Monitor::all(), index)
}

/// A frame of the monitor at `index` in the current list.
pub fn capture_monitor_image(index: usize) -> (r: Result<CapturedImage, CaptureError>)
    ensures
        r matches Ok(image) ==> image.wf() && image.data@.len() == 4 * image.width * image.height,
        r matches Err(e) ==> e is Enumeration || e == CaptureError::InvalidIndex(index) || (
        e matches CaptureError::Capture(i, _) && i == index),
{
    image_in(&Monitor::all(), index)
}

} // verus!
