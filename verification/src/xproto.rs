//! Helpers for the X property protocol: the format triple, the chunked
//! property-read protocol with its validation rules, the property-change
//! format check, and a guard for nullable native pointers.

use vstd::prelude::*;
use vstd::layout::size_of;

use crate::ime::XError;

verus! {

/// Number of 32-bit chunks requested per round of the property-read
/// protocol.
pub const PROPERTY_BUFFER_SIZE: i64 = 1024;

/// A property format. The protocol names formats 8, 16 and 32, and the
/// value is matched against a type size on the client — where format 32 is
/// stored in a full native long.
#[derive(Debug, Copy, Clone, PartialEq, Eq, Structural)]
pub enum Format {
    Char,
    Short,
    Long,
}

impl Format {
    /// The protocol code of the format.
    pub open spec fn spec_format_code(&self) -> usize {
        match *self {
            Format::Char => 8,
            Format::Short => 16,
            Format::Long => 32,
        }
    }

    /// The size in bytes of the client-side type the format is stored in.
    pub open spec fn spec_actual_size(&self) -> usize {
        match *self {
            Format::Char => 1,
            Format::Short => 2,
            Format::Long => 8,
        }
    }

    /// The format a protocol code names, if any.
    pub fn from_format(format: usize) -> (r: Option<Self>)
        ensures
            r == (match format {
                8usize => Some(Format::Char),
                16usize => Some(Format::Short),
                32usize => Some(Format::Long),
                _ => None::<Format>,
            }),
    {
        match format {
            8 => Some(Format::Char),
            16 => Some(Format::Short),
            32 => Some(Format::Long),
            _ => None,
        }
    }

    /// The protocol code of the format.
    pub fn format_code(&self) -> (r: usize)
        ensures
            r == self.spec_format_code(),
    {
        match *self {
            Format::Char => 8,
            Format::Short => 16,
            Format::Long => 32,
        }
    }

    /// The size in bytes of the client-side type the format is stored in.
    pub fn get_actual_size(&self) -> (r: usize)
        ensures
            r == self.spec_actual_size(),
    {
        match *self {
            Format::Char => 1,
            Format::Short => 2,
            Format::Long => 8,
        }
    }

    /// Whether the format's storage size equals the size of `T`.
    pub fn is_same_size_as<T>(&self) -> (r: bool)
        ensures
            r == (size_of::<T>() == self.spec_actual_size()),
    {
        core::mem::size_of::<T>() == self.get_actual_size()
    }
}

/// The mode of a property change.
#[derive(Debug, Copy, Clone, PartialEq, Eq, Structural)]
pub enum PropMode {
    Replace,
    Prepend,
    Append,
}

impl PropMode {
    /// The protocol code of the mode.
    pub fn mode_code(&self) -> (r: i32)
        ensures
            r == (match *self {
                PropMode::Replace => 0i32,
                PropMode::Prepend => 1i32,
                PropMode::Append => 2i32,
            }),
    {
        match *self {
            PropMode::Replace => 0,
            PropMode::Prepend => 1,
            PropMode::Append => 2,
        }
    }
}

/// Why a property read failed.
#[derive(Debug, Copy, Clone, PartialEq, Eq, Structural)]
pub enum GetPropertyError {
    /// The display server reported an error.
    XError(XError),
    /// The property exists with a different type; carries the actual type.
    TypeMismatch(u64),
    /// The property's format does not match the requested type; carries
    /// the actual format code.
    FormatMismatch(i32),
    /// The server allocated no data for the reply.
    NothingAllocated,
}

impl GetPropertyError {
    /// Whether this failure is a type mismatch against exactly `t`.
    pub fn is_actual_property_type(&self, t: u64) -> (r: bool)
        ensures
            r == (*self == GetPropertyError::TypeMismatch(t)),
    {
        match *self {
            GetPropertyError::TypeMismatch(actual) => actual == t,
            _ => false,
        }
    }
}

/// Why a property change failed.
#[derive(Debug, Copy, Clone, PartialEq, Eq, Structural)]
pub enum ChangePropertyError {
    /// The display server reported an error.
    XError(XError),
    /// The format does not match the size of the values passed; the sizes
    /// are in bytes.
    FormatError { format_used: Format, size_passed: usize, size_expected: usize },
}

/// Checks a property change's format against the value type `T` before
/// anything is sent: the change may go out exactly when the sizes agree.
pub fn check_change_property_format<T>(format: Format) -> (r: Result<(), ChangePropertyError>)
    ensures
        size_of::<T>() == format.spec_actual_size() <==> r is Ok,
        r matches Err(e) ==> e == (ChangePropertyError::FormatError {
            format_used: format,
            size_passed: vstd::layout::size_of_as_usize::<T>(),
            size_expected: format.spec_actual_size(),
        }),
{
    let size_passed = core::mem::size_of::<T>();
    let size_expected = format.get_actual_size();
    if size_passed == size_expected {
        Ok(())
    } else {
        Err(ChangePropertyError::FormatError { format_used: format, size_passed, size_expected })
    }
}

/// One reply of the chunked property read, as the adapter received it:
/// the actual type and format the server reported, the items of this
/// chunk (`None` when the server allocated nothing), how many bytes
/// remain, and whether an asynchronous error was pending.
pub struct PropertyReply {
    pub actual_type: u64,
    pub actual_format: i32,
    pub items: Option<Vec<u64>>,
    pub bytes_after: u64,
    pub error: Option<XError>,
}

/// What the reader asks next.
#[derive(Debug, Copy, Clone, PartialEq, Eq, Structural)]
pub enum PropertyStep {
    /// More data remains: request the next chunk at the reader's offset.
    Continue,
    /// The property has been read completely.
    Done,
    /// The read failed; the accumulated data is meaningless.
    Failed(GetPropertyError),
}

/// The chunked property-read protocol: the reader validates each reply
/// against the requested type and the expected item size, accumulates the
/// items, and advances its offset until the server reports no bytes after.
pub struct PropertyReader {
    /// The property type requested.
    pub property_type: u64,
    /// The size in bytes of the client-side item type.
    pub item_size: usize,
    /// The offset, in 32-bit chunks, of the next request.
    pub offset: i64,
    /// The items read so far, in property order.
    pub data: Vec<u64>,
}

impl PropertyReader {
    /// A reader about to request the first chunk.
    pub fn new(property_type: u64, item_size: usize) -> (r: Self)
        ensures
            r.property_type == property_type,
            r.item_size == item_size,
            r.offset == 0,
            r.data@.len() == 0,
    {
        PropertyReader { property_type, item_size, offset: 0, data: Vec::new() }
    }

    /// Validates and accumulates one reply. A pending server error, a type
    /// mismatch, a format the protocol does not name or one stored in a
    /// size other than the expected item size, and a reply without data
    /// each fail the read with its own error; otherwise the items extend
    /// the data, the offset advances by one buffer, and the read is done
    /// exactly when no bytes remain.
    pub fn feed(&mut self, reply: PropertyReply) -> (r: PropertyStep)
        requires
            0 <= old(self).offset <= i64::MAX - PROPERTY_BUFFER_SIZE,
        ensures
            final(self).property_type == old(self).property_type,
            final(self).item_size == old(self).item_size,
            reply.error matches Some(e) ==> r == PropertyStep::Failed(GetPropertyError::XError(e))
                && final(self).data@ == old(self).data@,
            reply.error is None && reply.actual_type != old(self).property_type ==> r
                == PropertyStep::Failed(GetPropertyError::TypeMismatch(reply.actual_type))
                && final(self).data@ == old(self).data@,
            reply.error is None && reply.actual_type == old(self).property_type && !(
            reply.actual_format == 8 && old(self).item_size == 1 || reply.actual_format == 16
                && old(self).item_size == 2 || reply.actual_format == 32 && old(self).item_size
                == 8) ==> r == PropertyStep::Failed(
                GetPropertyError::FormatMismatch(reply.actual_format),
            ) && final(self).data@ == old(self).data@,
            reply.error is None && reply.actual_type == old(self).property_type && (
            reply.actual_format == 8 && old(self).item_size == 1 || reply.actual_format == 16
                && old(self).item_size == 2 || reply.actual_format == 32 && old(self).item_size
                == 8) ==> {
                &&& (reply.items is None ==> r == PropertyStep::Failed(
                    GetPropertyError::NothingAllocated,
                ) && final(self).data@ == old(self).data@)
                &&& (reply.items matches Some(items) ==> {
                    &&& final(self).data@ == old(self).data@ + items@
                    &&& final(self).offset == old(self).offset + PROPERTY_BUFFER_SIZE
                    &&& r == (if reply.bytes_after == 0 {
                        PropertyStep::Done
                    } else {
                        PropertyStep::Continue
                    })
                })
            },
    {
        if let Some(e) = reply.error {
            return PropertyStep::Failed(GetPropertyError::XError(e));
        }
        if reply.actual_type != self.property_type {
            return PropertyStep::Failed(GetPropertyError::TypeMismatch(reply.actual_type));
        }
        let format_ok = (reply.actual_format == 8 && self.item_size == 1) || (reply.actual_format
            == 16 && self.item_size == 2) || (reply.actual_format == 32 && self.item_size == 8);
        if !format_ok {
            return PropertyStep::Failed(GetPropertyError::FormatMismatch(reply.actual_format));
        }
        match reply.items {
            None => PropertyStep::Failed(GetPropertyError::NothingAllocated),
            Some(mut items) => {
                self.data.append(&mut items);
                self.offset = self.offset + PROPERTY_BUFFER_SIZE;
                if reply.bytes_after == 0 {
                    PropertyStep::Done
                } else {
                    PropertyStep::Continue
                }
            },
        }
    }
}

/// A guard for a native allocation handle: zero is the null handle and
/// carries no allocation. The adapter owns the matching release call.
#[derive(Debug, Copy, Clone, PartialEq, Eq, Structural)]
pub struct XSmartPointer {
    pub ptr: u64,
}

impl XSmartPointer {
    /// Wraps a handle, refusing the null handle.
    pub fn new(ptr: u64) -> (r: Option<Self>)
        ensures
            ptr != 0 ==> r == Some(XSmartPointer { ptr }),
            ptr == 0 ==> r is None,
    {
        if ptr != 0 {
            Some(XSmartPointer { ptr })
        } else {
            None
        }
    }
}

} // verus!
