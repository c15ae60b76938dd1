//! A container that tells apart, by a marker type, values that are kept in
//! the same way.
use core::marker::PhantomData;
use vstd::prelude::*;
use vstd::std_specs::convert::FromSpecImpl;
use vstd::string::StringExecFns;

verus! {

/// Marker trait to be implemented by marker types
pub trait Marker {

}

/// Key image marker type
pub struct KeyImageX;

impl Marker for KeyImageX {

}

/// Values that can be read as a string of bytes.
pub trait Bytes {
    /// The bytes of the value.
    spec fn spec_bytes(&self) -> Seq<u8>;

    /// The bytes of the value.
    fn bytes(&self) -> (b: &[u8])
        ensures
            b@ == self.spec_bytes(),
    ;
}

impl Bytes for [u8; 32] {
    open spec fn spec_bytes(&self) -> Seq<u8> {
        self@
    }

    fn bytes(&self) -> (b: &[u8]) {
        self.as_slice()
    }
}

impl Bytes for Vec<u8> {
    open spec fn spec_bytes(&self) -> Seq<u8> {
        self@
    }

    fn bytes(&self) -> (b: &[u8]) {
        self.as_slice()
    }
}

/// The hexadecimal digit of a number below sixteen.
pub open spec fn hex_digit(n: u8, upper: bool) -> char {
    if upper {
        seq!['0', '1', '2', '3', '4', '5', '6', '7', '8', '9', 'A', 'B', 'C', 'D', 'E', 'F'][n as int]
    } else {
        seq!['0', '1', '2', '3', '4', '5', '6', '7', '8', '9', 'a', 'b', 'c', 'd', 'e', 'f'][n as int]
    }
}

/// The hexadecimal form of a byte string: two digits for each byte, the high
/// half first.
pub open spec fn hex_of(bytes: Seq<u8>, upper: bool) -> Seq<char>
    decreases bytes.len(),
{
    if bytes.len() == 0 {
        Seq::empty()
    } else {
        hex_of(bytes.drop_last(), upper) + seq![
            hex_digit(bytes.last() / 16, upper),
            hex_digit(bytes.last() % 16, upper),
        ]
    }
}

/// The hexadecimal digit of `n`, as a string.
fn digit(n: u8, upper: bool) -> (s: &'static str)
    requires
        n < 16,
    ensures
        s@ == seq![hex_digit(n, upper)],
{
    proof {
        reveal_strlit("0");
        reveal_strlit("1");
        reveal_strlit("2");
        reveal_strlit("3");
        reveal_strlit("4");
        reveal_strlit("5");
        reveal_strlit("6");
        reveal_strlit("7");
        reveal_strlit("8");
        reveal_strlit("9");
        reveal_strlit("a");
        reveal_strlit("b");
        reveal_strlit("c");
        reveal_strlit("d");
        reveal_strlit("e");
        reveal_strlit("f");
        reveal_strlit("A");
        reveal_strlit("B");
        reveal_strlit("C");
        reveal_strlit("D");
        reveal_strlit("E");
        reveal_strlit("F");
    }
    let s = match n {
        0 => "0",
        1 => "1",
        2 => "2",
        3 => "3",
        4 => "4",
        5 => "5",
        6 => "6",
        7 => "7",
        8 => "8",
        9 => "9",
        10 => if upper {
            "A"
        } else {
            "a"
        },
        11 => if upper {
            "B"
        } else {
            "b"
        },
        12 => if upper {
            "C"
        } else {
            "c"
        },
        13 => if upper {
            "D"
        } else {
            "d"
        },
        14 => if upper {
            "E"
        } else {
            "e"
        },
        _ => if upper {
            "F"
        } else {
            "f"
        },
    };
    assert(s@ =~= seq![hex_digit(n, upper)]);
    s
}

/// The hexadecimal form of `data`.
pub fn to_hex(data: &[u8], upper: bool) -> (s: String)
    ensures
        s@ == hex_of(data@, upper),
{
    let mut s = String::new();
    let mut i: usize = 0;
    while i < data.len()
        invariant
            i <= data@.len(),
            s@ == hex_of(data@.take(i as int), upper),
        decreases data@.len() - i,
    {
        let byte = data[i];
        s.append(digit(byte / 16, upper));
        s.append(digit(byte % 16, upper));
        proof {
            let next = data@.take(i + 1);
            assert(next.drop_last() =~= data@.take(i as int));
            assert(next.last() == byte);
            assert(s@ =~= hex_of(next, upper));
        }
        i += 1;
    }
    assert(data@.take(i as int) =~= data@);
    s
}

/// Container type for byte-array / points etc.
pub struct Container<TY: Marker, INNER> {
    inner: INNER,
    _ty: PhantomData<TY>,
}

/// The "image" of a private key `x`: I = x * Hp(x * G) = x * Hp(P).
pub type KeyImage = Container<KeyImageX, [u8; 32]>;

impl<TY: Marker, INNER> Container<TY, INNER> {
    /// The value inside.
    pub closed spec fn inner(self) -> INNER {
        self.inner
    }

    /// The container of `inner`.
    pub closed spec fn spec_new(inner: INNER) -> Self {
        Container { inner, _ty: PhantomData }
    }

    /// Access inner value as reference
    pub fn as_ref(&self) -> (inner: &INNER)
        ensures
            *inner == self.inner(),
    {
        &self.inner
    }

    /// Access inner value as mutable reference
    pub fn as_mut(&mut self) -> (inner: &mut INNER)
        ensures
            *inner == old(self).inner(),
            final(self).inner() == *final(inner),
    {
        &mut self.inner
    }
}

/// Default conversion from inner type
impl<TY: Marker, INNER> From<INNER> for Container<TY, INNER> {
    fn from(inner: INNER) -> (c: Self)
        ensures
            c.inner() == inner,
    {
        Self { inner, _ty: PhantomData }
    }
}

impl<TY: Marker, INNER> FromSpecImpl<INNER> for Container<TY, INNER> {
    open spec fn obeys_from_spec() -> bool {
        true
    }

    open spec fn from_spec(inner: INNER) -> Self {
        Self::spec_new(inner)
    }
}

/// Default conversion from clonable inner type reference
impl<'a, TY: Marker, INNER: Clone> From<&'a INNER> for Container<TY, INNER> {
    fn from(inner: &'a INNER) -> (c: Self)
        ensures
            cloned(*inner, c.inner()),
    {
        Self { inner: inner.clone(), _ty: PhantomData }
    }
}

impl<'a, TY: Marker, INNER: Clone> FromSpecImpl<&'a INNER> for Container<TY, INNER> {
    /// A clone need not be the value that it was made of.
    open spec fn obeys_from_spec() -> bool {
        false
    }

    open spec fn from_spec(inner: &'a INNER) -> Self {
        Self::spec_new(*inner)
    }
}

impl<TY: Marker, INNER: Bytes> Container<TY, INNER> {
    /// The bytes inside in lower-case hexadecimal.
    pub fn lower_hex(&self) -> (s: String)
        ensures
            s@ == hex_of(self.inner().spec_bytes(), false),
    {
        to_hex(self.inner.bytes(), false)
    }

    /// The bytes inside in upper-case hexadecimal.
    pub fn upper_hex(&self) -> (s: String)
        ensures
            s@ == hex_of(self.inner().spec_bytes(), true),
    {
        to_hex(self.inner.bytes(), true)
    }

    /// The container as text: the bytes inside in lower-case hexadecimal.
    pub fn to_string(&self) -> (s: String)
        ensures
            s@ == hex_of(self.inner().spec_bytes(), false),
    {
        self.lower_hex()
    }
}

} // verus!
