use vstd::prelude::*;

verus! {

/// A byte that may appear verbatim in an identity name on the wire:
/// not a control byte, not the quote that closes the quoted name field,
/// and not the backslash that would start an escape sequence.
pub open spec fn valid_name_byte(b: u8) -> bool {
    b >= 0x20 && b != 0x22 && b != 0x5c
}

/// A well-formed identity name: non-empty, and every byte can stand
/// verbatim inside the quoted name field of the wire encoding.
pub open spec fn valid_name(s: Seq<u8>) -> bool {
    s.len() > 0 && (forall|i: int| 0 <= i < s.len() ==> valid_name_byte(s[i]))
}

/// The self-reported name a discovery agent advertises: a display name held
/// as UTF-8 bytes, immutable after construction. Equality and a stable hash
/// are defined over the name (unused by the current logic, kept for possible
/// future deduplication).
#[derive(Clone, Debug, PartialEq, Eq, Hash)]
pub struct Identity {
    pub name: Vec<u8>,
}

impl View for Identity {
    type V = Seq<u8>;

    open spec fn view(&self) -> Seq<u8> {
        self.name@
    }
}

impl Identity {
    /// An identity is well formed when its name is.
    pub open spec fn well_formed(&self) -> bool {
        valid_name(self@)
    }

    /// Accepts exactly the well-formed names and builds an identity from one.
    pub fn new(name: Vec<u8>) -> (r: Option<Identity>)
        ensures
            match r {
                Some(id) => valid_name(name@) && id@ == name@,
                None => !valid_name(name@),
            },
    {
        if name.len() == 0 {
            return None;
        }
        let mut i: usize = 0;
        while i < name.len()
            invariant
                i <= name@.len(),
                forall|j: int| 0 <= j < i ==> valid_name_byte(name@[j]),
            decreases name@.len() - i,
        {
            let b = name[i];
            if b < 0x20 || b == 0x22 || b == 0x5c {
                return None;
            }
            i += 1;
        }
        Some(Identity { name })
    }
}

} // verus!
