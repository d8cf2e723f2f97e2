//! Records of the table: the 4-byte header common to every record, the
//! record itself (header, raw payload, trailing string table), and the typed
//! projection of a payload onto one of the known record shapes.

use vstd::prelude::*;

verus! {

/// The 4-byte prefix of every record: a type tag, the declared record length
/// including this header, and a 16-bit firmware-assigned handle.
#[derive(Clone, Copy, Debug, PartialEq, Eq, Structural)]
pub struct Header {
    pub kind: u8,
    pub len: u8,
    pub handle: u16,
}

/// One decoded record: its header, the raw bytes of the fixed-format payload
/// (declared length minus the 4 header bytes, shorter if the buffer ran out),
/// and the record's private string table in storage order.
#[derive(Clone)]
pub struct Table {
    pub header: Header,
    pub data: Vec<u8>,
    pub strings: Vec<String>,
}

/// Mathematical model of one record.
#[verifier::ext_equal]
pub struct TableModel {
    pub header: Header,
    pub data: Seq<u8>,
    pub strings: Seq<Seq<char>>,
}

/// The string table of a record as a sequence of character sequences.
pub open spec fn strings_view(ss: Seq<String>) -> Seq<Seq<char>> {
    ss.map_values(|s: String| s@)
}

impl View for Table {
    type V = TableModel;

    open spec fn view(&self) -> TableModel {
        TableModel { header: self.header, data: self.data@, strings: strings_view(self.strings@) }
    }
}

/// A record shape with a fixed type tag and a fixed field layout, readable
/// from the leading bytes of a payload.
pub trait TableKind: Sized {
    /// The type tag this shape claims.
    spec fn spec_kind() -> u8;

    /// The size in bytes of the shape's fixed layout.
    spec fn spec_size() -> nat;

    /// The shape's fields as read little-endian off the payload's leading
    /// bytes.
    spec fn spec_decode(payload: Seq<u8>) -> Self;

    /// The type tag, as a runtime value.
    fn kind() -> (k: u8)
        ensures
            k == Self::spec_kind(),
    ;

    /// Reads the shape off the payload's leading bytes; succeeds exactly when
    /// the payload is at least as long as the fixed layout.
    fn from_payload(payload: &[u8]) -> (r: Option<Self>)
        ensures
            r == (if payload@.len() >= Self::spec_size() {
                Some(Self::spec_decode(payload@))
            } else {
                None::<Self>
            }),
    ;
}

impl Table {
    /// Projects this record's payload onto shape `T`.  The projection
    /// succeeds exactly when the record's type tag equals `T`'s tag and the
    /// payload is at least as long as `T`'s fixed layout; anything else is a
    /// normal "no match", never an error.
    pub fn get<T: TableKind>(&self) -> (r: Option<T>)
        ensures
            r == (if self.header.kind == T::spec_kind() && self@.data.len() >= T::spec_size() {
                Some(T::spec_decode(self@.data))
            } else {
                None::<T>
            }),
    {
        if self.header.kind == T::kind() {
            T::from_payload(self.data.as_slice())
        } else {
            None
        }
    }

    /// Looks up a string by 1-based index.  Index 0 always means "no string
    /// present"; an index past the last entry is likewise absent.
    pub fn get_str(&self, index: u8) -> (r: Option<&String>)
        ensures
            r is Some <==> 1 <= index && index as int <= self.strings@.len(),
            r matches Some(s) ==> *s == self.strings@[index as int - 1],
    {
        if index > 0 && ((index - 1) as usize) < self.strings.len() {
            Some(&self.strings[(index - 1) as usize])
        } else {
            None
        }
    }
}

} // verus!
