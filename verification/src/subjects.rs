//! Example subject types carrying the generated interface, written out in
//! full with the contracts the generator promises for it.
//!
//! Every subject offers the unconditional part of the interface: `len` and
//! `is_empty`, whose values are fixed per type, and — whenever the subject
//! has fields — indexed read and write access to the field at a given
//! position, plus checked variants that return `None` or `false` for an
//! out-of-range index instead of requiring it away. Reading position `i`
//! is reading the `i`-th declared field; writing through the mutable
//! accessor and reading back through either path observes one underlying
//! location.
//!
//! [`NamedGeneric`] is declared with an active capability gate, so it also
//! carries the view family: construct-from-view and view-as-contents.
//! Those operations are implemented as explicit, checked copies rather
//! than aliasing reinterpretations — this crate has no unsafe layout
//! escape hatch, so the zero-copy guarantee is traded for safety; the
//! length check and the element-for-element correspondence are kept
//! exactly.
//!
//! [`Unit`] has zero fields: `len` is `0`, no valid index exists, and no
//! accessor or view operation is present at all, there being no element
//! type to state one over.

use vstd::prelude::*;

verus! {

/// A named-field subject with four fields of one generic element type,
/// declared with an active capability gate.
pub struct NamedGeneric<T> {
    pub a: T,
    pub b: T,
    pub c: T,
    pub d: T,
}

impl<T> View for NamedGeneric<T> {
    type V = Seq<T>;

    open spec fn view(&self) -> Seq<T> {
        seq![self.a, self.b, self.c, self.d]
    }
}

impl<T> NamedGeneric<T> {
    /// Returns the number of fields. Always `4`.
    pub fn len(&self) -> (r: usize)
        ensures
            r == self@.len(),
            r == 4,
    {
        4
    }

    /// Indicates whether this type is zero-length. Always `false`.
    pub fn is_empty(&self) -> (r: bool)
        ensures
            r == (self@.len() == 0),
    {
        false
    }

    /// Read access to the field at `index`: position `i` is the `i`-th
    /// declared field.
    pub fn get(&self, index: usize) -> (r: &T)
        requires
            index < 4,
        ensures
            *r == self@[index as int],
    {
        if index == 0 {
            &self.a
        } else if index == 1 {
            &self.b
        } else if index == 2 {
            &self.c
        } else {
            &self.d
        }
    }

    /// Write access to the same storage location `get` reads: what is
    /// written through the returned reference is observed at `index` and
    /// nowhere else.
    pub fn get_mut(&mut self, index: usize) -> (r: &mut T)
        requires
            index < 4,
        ensures
            *r == old(self)@[index as int],
            final(self)@ == old(self)@.update(index as int, *final(r)),
    {
        if index == 0 {
            &mut self.a
        } else if index == 1 {
            &mut self.b
        } else if index == 2 {
            &mut self.c
        } else {
            &mut self.d
        }
    }

    /// Checked read access: the element at `index`, or `None` exactly when
    /// `index` is out of range.
    pub fn try_get(&self, index: usize) -> (r: Option<&T>)
        ensures
            r is Some <==> index < 4,
            r matches Some(v) ==> *v == self@[index as int],
    {
        if index < 4 {
            Some(self.get(index))
        } else {
            None
        }
    }

    /// Checked write access: stores `value` at `index` and reports whether
    /// it did; an out-of-range index changes nothing.
    pub fn try_set(&mut self, index: usize, value: T) -> (r: bool)
        ensures
            r == (index < 4),
            index < 4 ==> final(self)@ == old(self)@.update(index as int, value),
            index >= 4 ==> *final(self) == *old(self),
    {
        if index == 0 {
            self.a = value;
            true
        } else if index == 1 {
            self.b = value;
            true
        } else if index == 2 {
            self.c = value;
            true
        } else if index == 3 {
            self.d = value;
            true
        } else {
            false
        }
    }
}

impl<T: Copy> NamedGeneric<T> {
    /// Constructs an instance from a contiguous view of the element type,
    /// by checked copy: the view's length must equal the field count, and
    /// the instance holds exactly the view's elements, in order.
    pub fn from_slice(v: &[T]) -> (r: Self)
        requires
            v@.len() == 4,
        ensures
            r@ == v@,
    {
        let r = NamedGeneric { a: v[0], b: v[1], c: v[2], d: v[3] };
        proof {
            assert(r@ =~= v@);
        }
        r
    }

    /// The checked form of `from_slice`: `None` exactly when the view's
    /// length differs from the field count; no instance is produced then.
    pub fn try_from_slice(v: &[T]) -> (r: Option<Self>)
        ensures
            r is Some <==> v@.len() == 4,
            r matches Some(instance) ==> instance@ == v@,
    {
        if v.len() == 4 {
            Some(Self::from_slice(v))
        } else {
            None
        }
    }

    /// Overwrites the instance with a contiguous view's elements, by
    /// checked copy: the mutable counterpart of `from_slice`.
    pub fn copy_from_slice(&mut self, v: &[T])
        requires
            v@.len() == 4,
        ensures
            final(self)@ == v@,
    {
        self.a = v[0];
        self.b = v[1];
        self.c = v[2];
        self.d = v[3];
        proof {
            assert(self@ =~= v@);
        }
    }

    /// The instance's storage as a contiguous sequence of its elements, by
    /// copy: element `i` is the field at position `i`.
    pub fn as_vec(&self) -> (r: Vec<T>)
        ensures
            r@ == self@,
    {
        let mut r: Vec<T> = Vec::new();
        r.push(self.a);
        r.push(self.b);
        r.push(self.c);
        r.push(self.d);
        proof {
            assert(r@ =~= self@);
        }
        r
    }
}

impl<T: Default> Default for NamedGeneric<T> {
    /// Every field is the element type's default value.
    fn default() -> Self {
        NamedGeneric {
            a: T::default(),
            b: T::default(),
            c: T::default(),
            d: T::default(),
        }
    }
}

/// A positional subject with a single field.
pub struct Newtype(pub i32);

impl View for Newtype {
    type V = Seq<i32>;

    open spec fn view(&self) -> Seq<i32> {
        seq![self.0]
    }
}

impl Newtype {
    /// Returns the number of fields. Always `1`.
    pub fn len(&self) -> (r: usize)
        ensures
            r == self@.len(),
            r == 1,
    {
        1
    }

    /// Indicates whether this type is zero-length. Always `false`.
    pub fn is_empty(&self) -> (r: bool)
        ensures
            r == (self@.len() == 0),
    {
        false
    }

    /// Read access to the field at `index`: position `i` is the `i`-th
    /// tuple slot.
    pub fn get(&self, index: usize) -> (r: &i32)
        requires
            index < 1,
        ensures
            *r == self@[index as int],
    {
        &self.0
    }

    /// Write access to the same storage location `get` reads.
    pub fn get_mut(&mut self, index: usize) -> (r: &mut i32)
        requires
            index < 1,
        ensures
            *r == old(self)@[index as int],
            final(self)@ == old(self)@.update(index as int, *final(r)),
    {
        &mut self.0
    }

    /// Checked read access: `None` exactly when `index` is out of range.
    pub fn try_get(&self, index: usize) -> (r: Option<&i32>)
        ensures
            r is Some <==> index < 1,
            r matches Some(v) ==> *v == self@[index as int],
    {
        if index < 1 {
            Some(self.get(index))
        } else {
            None
        }
    }

    /// Checked write access: an out-of-range index changes nothing.
    pub fn try_set(&mut self, index: usize, value: i32) -> (r: bool)
        ensures
            r == (index < 1),
            index < 1 ==> final(self)@ == old(self)@.update(index as int, value),
            index >= 1 ==> *final(self) == *old(self),
    {
        if index == 0 {
            self.0 = value;
            true
        } else {
            false
        }
    }
}

impl Default for Newtype {
    /// The single field defaults to `0`.
    fn default() -> (r: Self)
        ensures
            r.0 == 0,
    {
        Newtype(0)
    }
}

/// A positional subject with two fields of one element type.
pub struct Tuple(pub i32, pub i32);

impl View for Tuple {
    type V = Seq<i32>;

    open spec fn view(&self) -> Seq<i32> {
        seq![self.0, self.1]
    }
}

impl Tuple {
    /// Returns the number of fields. Always `2`.
    pub fn len(&self) -> (r: usize)
        ensures
            r == self@.len(),
            r == 2,
    {
        2
    }

    /// Indicates whether this type is zero-length. Always `false`.
    pub fn is_empty(&self) -> (r: bool)
        ensures
            r == (self@.len() == 0),
    {
        false
    }

    /// Read access to the field at `index`: position `i` is the `i`-th
    /// tuple slot.
    pub fn get(&self, index: usize) -> (r: &i32)
        requires
            index < 2,
        ensures
            *r == self@[index as int],
    {
        if index == 0 {
            &self.0
        } else {
            &self.1
        }
    }

    /// Write access to the same storage location `get` reads: what is
    /// written through the returned reference is observed at `index` and
    /// nowhere else.
    pub fn get_mut(&mut self, index: usize) -> (r: &mut i32)
        requires
            index < 2,
        ensures
            *r == old(self)@[index as int],
            final(self)@ == old(self)@.update(index as int, *final(r)),
    {
        if index == 0 {
            &mut self.0
        } else {
            &mut self.1
        }
    }

    /// Checked read access: `None` exactly when `index` is out of range.
    pub fn try_get(&self, index: usize) -> (r: Option<&i32>)
        ensures
            r is Some <==> index < 2,
            r matches Some(v) ==> *v == self@[index as int],
    {
        if index < 2 {
            Some(self.get(index))
        } else {
            None
        }
    }

    /// Checked write access: an out-of-range index changes nothing.
    pub fn try_set(&mut self, index: usize, value: i32) -> (r: bool)
        ensures
            r == (index < 2),
            index < 2 ==> final(self)@ == old(self)@.update(index as int, value),
            index >= 2 ==> *final(self) == *old(self),
    {
        if index == 0 {
            self.0 = value;
            true
        } else if index == 1 {
            self.1 = value;
            true
        } else {
            false
        }
    }
}

impl Default for Tuple {
    /// Both fields default to `0`.
    fn default() -> (r: Self)
        ensures
            r.0 == 0,
            r.1 == 0,
    {
        Tuple(0, 0)
    }
}

/// A zero-field subject: trivially uniform, with no element type. Its
/// interface is the length and emptiness queries alone — no valid index
/// ever exists, and there is no element type for an accessor or a view
/// operation to be stated over.
pub struct Unit;

impl Unit {
    /// Returns the number of fields. Always `0`.
    pub fn len(&self) -> (r: usize)
        ensures
            r == 0,
    {
        0
    }

    /// Indicates whether this type is zero-length. Always `true`.
    pub fn is_empty(&self) -> (r: bool)
        ensures
            r == true,
    {
        true
    }
}

impl Default for Unit {
    /// There is nothing to fill in.
    fn default() -> Self {
        Unit
    }
}

/// Writing a value at one valid index of a subject's contents and reading
/// afterwards sees the written value at that index, the old value at every
/// other index, and the same length: indexed writes do not interfere
/// across indices, whichever accessor path performed them.
pub proof fn lemma_write_then_read<T>(contents: Seq<T>, index: int, value: T)
    requires
        0 <= index < contents.len(),
    ensures
        contents.update(index, value)[index] == value,
        contents.update(index, value).len() == contents.len(),
        forall|j: int|
            0 <= j < contents.len() && j != index
                ==> contents.update(index, value)[j] == contents[j],
{
}

} // verus!

