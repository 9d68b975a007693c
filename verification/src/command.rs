//! The command model: response/request frames and the two supported
//! operations, GET and SET.
//!
//! A request arrives as an array frame whose items are byte strings: the
//! operation name (matched without regard to ASCII case) followed by its
//! arguments. Anything else is a protocol error: a frame that is not such an
//! array, or an array of the wrong arity, is malformed, and an array naming
//! any other operation is an unsupported command. Both are fatal to the one
//! connection that sent them.

use vstd::prelude::*;

verus! {

/// One self-delimited unit of the wire protocol.
#[derive(Debug)]
pub enum Frame {
    /// A short acknowledgement text, e.g. the reply to a successful SET.
    Simple(String),
    /// A value payload.
    Bulk(Vec<u8>),
    /// The reply for an absent key.
    Null,
    /// A reported error text.
    Error(String),
    /// A request: the operation name followed by its arguments.
    Array(Vec<Vec<u8>>),
}

/// A decoded, typed operation.
#[derive(Debug)]
pub enum Command {
    /// Read the value bound to `key`.
    Get { key: Vec<u8> },
    /// Bind `key` to `val`, overwriting any earlier binding.
    Put { key: Vec<u8>, val: Vec<u8> },
}

/// Why a request frame was rejected; fatal to its connection either way.
#[derive(Clone, Copy, Debug, PartialEq, Eq, Structural)]
pub enum ProtoError {
    /// The frame is not an array of byte strings naming a known operation
    /// with the right number of arguments.
    Malformed,
    /// The frame names an operation the service does not implement.
    Unsupported,
}

/// ASCII upper-case letters folded to lower case; every other byte unchanged.
pub open spec fn spec_lower(b: u8) -> u8 {
    if 65 <= b && b <= 90 {
        (b + 32) as u8
    } else {
        b
    }
}

/// Case-folded bytes of an operation name.
pub open spec fn spec_lower_seq(s: Seq<u8>) -> Seq<u8> {
    s.map_values(|b: u8| spec_lower(b))
}

/// The bytes of the name of the read operation, lower case.
pub open spec fn get_name() -> Seq<u8> {
    seq![103u8, 101u8, 116u8]
}

/// The bytes of the name of the write operation, lower case.
pub open spec fn set_name() -> Seq<u8> {
    seq![115u8, 101u8, 116u8]
}

/// What a request array decodes to: GET with one argument, SET with two,
/// a malformed error on any other arity, an unsupported error on any other
/// operation name.
pub open spec fn spec_parse_items(items: Seq<Vec<u8>>) -> Result<Command, ProtoError> {
    if items.len() == 0 {
        Err(ProtoError::Malformed)
    } else if spec_lower_seq(items[0]@) == get_name() {
        if items.len() == 2 {
            Ok(Command::Get { key: items[1] })
        } else {
            Err(ProtoError::Malformed)
        }
    } else if spec_lower_seq(items[0]@) == set_name() {
        if items.len() == 3 {
            Ok(Command::Put { key: items[1], val: items[2] })
        } else {
            Err(ProtoError::Malformed)
        }
    } else {
        Err(ProtoError::Unsupported)
    }
}

/// What any frame decodes to: only array frames can carry a request.
pub open spec fn spec_parse(f: Frame) -> Result<Command, ProtoError> {
    match f {
        Frame::Array(items) => spec_parse_items(items@),
        _ => Err(ProtoError::Malformed),
    }
}

/// Fold a name's bytes to lower case.
fn lower_bytes(v: &Vec<u8>) -> (r: Vec<u8>)
    ensures
        r@ == spec_lower_seq(v@),
{
    let mut r: Vec<u8> = Vec::new();
    let mut i: usize = 0;
    while i < v.len()
        invariant
            i <= v@.len(),
            r@.len() == i,
            forall|j: int| 0 <= j < i ==> r@[j] == spec_lower(v@[j]),
        decreases v@.len() - i,
    {
        let b = v[i];
        if 65 <= b && b <= 90 {
            r.push(b + 32);
        } else {
            r.push(b);
        }
        i = i + 1;
    }
    proof {
        assert(r@ =~= spec_lower_seq(v@));
    }
    r
}

/// Whether `v`, case-folded, is the three-byte name `n0 n1 n2`.
fn name_is(v: &Vec<u8>, n0: u8, n1: u8, n2: u8) -> (r: bool)
    ensures
        r == (spec_lower_seq(v@) == seq![n0, n1, n2]),
{
    let w = lower_bytes(v);
    if w.len() != 3 {
        return false;
    }
    let r = w[0] == n0 && w[1] == n1 && w[2] == n2;
    proof {
        if r {
            assert(w@ =~= seq![n0, n1, n2]);
        } else {
            assert(w@ != seq![n0, n1, n2]) by {
                let lit = seq![n0, n1, n2];
                assert(lit[0] == n0 && lit[1] == n1 && lit[2] == n2);
            }
        }
    }
    r
}

impl Command {
    /// Decode a frame into a command, or say exactly why it is rejected.
    pub fn from_frame(f: Frame) -> (r: Result<Command, ProtoError>)
        ensures
            r == spec_parse(f),
    {
        match f {
            Frame::Array(mut items) => {
                if items.len() == 0 {
                    Err(ProtoError::Malformed)
                } else if name_is(&items[0], 103, 101, 116) {
                    if items.len() == 2 {
                        let key = items.remove(1);
                        Ok(Command::Get { key })
                    } else {
                        Err(ProtoError::Malformed)
                    }
                } else if name_is(&items[0], 115, 101, 116) {
                    if items.len() == 3 {
                        let key = items.remove(1);
                        let val = items.remove(1);
                        Ok(Command::Put { key, val })
                    } else {
                        Err(ProtoError::Malformed)
                    }
                } else {
                    Err(ProtoError::Unsupported)
                }
            },
            Frame::Simple(_) => Err(ProtoError::Malformed),
            Frame::Bulk(_) => Err(ProtoError::Malformed),
            Frame::Null => Err(ProtoError::Malformed),
            Frame::Error(_) => Err(ProtoError::Malformed),
        }
    }
}

} // verus!
