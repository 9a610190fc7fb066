use vstd::prelude::*;

use crate::error::H5Error;
use crate::text::{push_signed_decimal, signed_decimal};

verus! {

/// An HDF5 object identifier, as the C library hands it out.
#[allow(non_camel_case_types)]
pub type hid_t = i64;

/// A size or count in the C library (`hsize_t`).
#[allow(non_camel_case_types)]
pub type hsize_t = u64;

/// A status code in the C library (`herr_t`): negative means failure.
#[allow(non_camel_case_types)]
pub type herr_t = i32;

/// A signed size in the C library (`hssize_t`).
#[allow(non_camel_case_types)]
pub type hssize_t = i64;

/// A tri-state answer in the C library (`htri_t`): positive is true, zero false, negative
/// failure.
#[allow(non_camel_case_types)]
pub type htri_t = i32;

/// The identifier that the C library uses for "no object".
pub const H5I_INVALID_HID: hid_t = -1;

/// The type of an object identifier in the C library (`H5I_type_t`).
#[allow(non_camel_case_types)]
pub type H5I_type_t = i32;

/// The identifier type that the C library uses for "no valid type".
pub const H5I_BADID: H5I_type_t = -1;

/// Whether `tp` is one of the identifier types of a C library that has `ntypes` of them
/// (`H5I_NTYPES`).
pub open spec fn is_valid_type(tp: H5I_type_t, ntypes: H5I_type_t) -> bool {
    H5I_BADID < tp < ntypes
}

/// A handle to an HDF5 object: the identifier that the C library handed out.
///
/// Reference counting (increment on borrow, decrement on release) is work of the C
/// library and is done by the caller that links it. `clone` copies the identifier and
/// takes no reference; a clone that holds a reference of its own borrows the identifier
/// and falls back on an invalid handle, as `borrowed_or_invalid` decides.
#[derive(Clone, Debug)]
pub struct Handle {
    id: hid_t,
}

impl Handle {
    pub closed spec fn spec_id(&self) -> hid_t {
        self.id
    }

    /// A handle that refers to no object.
    pub fn invalid() -> (h: Handle)
        ensures
            h.spec_id() == H5I_INVALID_HID,
    {
        Handle { id: H5I_INVALID_HID }
    }

    /// The message of the error for an identifier that the C library does not accept.
    pub open spec fn invalid_id_message(id: hid_t) -> Seq<char> {
        "Invalid handle id: "@ + signed_decimal(id as int)
    }

    /// Takes ownership of the object identifier `id`, given whether the C library reports
    /// it as a valid user identifier (`H5Iis_valid`); an identifier that is not valid is
    /// refused, so that releasing the handle never closes an unrelated object.
    pub fn try_new(id: hid_t, is_valid_user_id: bool) -> (r: Result<Handle, H5Error>)
        ensures
            is_valid_user_id <==> r is Ok,
            r matches Ok(h) ==> h.spec_id() == id,
            r matches Err(e) ==> (e matches H5Error::Internal { message } && message@
                == Self::invalid_id_message(id)),
    {
        if is_valid_user_id {
            Ok(Handle { id })
        } else {
            let mut message = String::from_str("Invalid handle id: ");
            push_signed_decimal(&mut message, id);
            Err(H5Error::Internal { message })
        }
    }

    /// The type of the object that the identifier refers to, given the C library's answer
    /// (`H5Iget_type`), which is asked only for a positive identifier, and its number of
    /// identifier types: a non-positive identifier, or an answer outside the library's types,
    /// gives `H5I_BADID`.
    pub fn id_type<F: FnOnce() -> H5I_type_t>(&self, get_type: F, ntypes: H5I_type_t) -> (t: H5I_type_t)
        requires
            self.spec_id() > 0 ==> get_type.requires(()),
        ensures
            self.spec_id() <= 0 ==> t == H5I_BADID,
            self.spec_id() > 0 ==> exists|tp: H5I_type_t|
                #![trigger get_type.ensures((), tp)]
                get_type.ensures((), tp) && t == (if is_valid_type(tp, ntypes) {
                    tp
                } else {
                    H5I_BADID
                }),
    {
        if self.id <= 0 {
            H5I_BADID
        } else {
            let tp = get_type();
            if H5I_BADID < tp && tp < ntypes {
                tp
            } else {
                H5I_BADID
            }
        }
    }

    /// Whether the identifier refers to an object of a valid type, given the C library's
    /// answer for its type as `id_type` takes it.
    pub fn is_valid_id<F: FnOnce() -> H5I_type_t>(&self, get_type: F, ntypes: H5I_type_t) -> (b: bool)
        requires
            self.spec_id() > 0 ==> get_type.requires(()),
        ensures
            self.spec_id() <= 0 ==> !b,
            self.spec_id() > 0 ==> exists|tp: H5I_type_t|
                #![trigger get_type.ensures((), tp)]
                get_type.ensures((), tp) && b == is_valid_type(tp, ntypes),
    {
        let tp = self.id_type(get_type, ntypes);
        H5I_BADID < tp && tp < ntypes
    }

    /// The handle that cloning a handle gives, from the outcome of borrowing its identifier
    /// (taking a new reference): the borrowed handle, or a handle that refers to no object
    /// when borrowing failed, so that dropping it closes nothing.
    pub fn borrowed_or_invalid(borrowed: Result<Handle, H5Error>) -> (h: Handle)
        ensures
            borrowed matches Ok(b) ==> h == b,
            borrowed is Err ==> h.spec_id() == H5I_INVALID_HID,
    {
        match borrowed {
            Ok(h) => h,
            Err(_) => Handle::invalid(),
        }
    }

    /// The object identifier.
    pub fn id(&self) -> (id: hid_t)
        ensures
            id == self.spec_id(),
    {
        self.id
    }
}

} // verus!
