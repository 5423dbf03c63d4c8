//! The shapes a reading takes: scalars, 2-, 3- and 4-vectors, identifiers and linear ranges.
use vstd::prelude::*;
use crate::wire::{lemma_field, lemma_skip_skip, lemma_spliced_twice, Codec, Component, DecodeError};

verus! {

/// Scalar data.
#[derive(Clone, Copy, Debug, Default, PartialEq, Eq, Hash, PartialOrd, Ord)]
pub struct ScalarData<T> {
    /// The value.
    pub value: T,
}

impl<T> View for ScalarData<T> {
    type V = Seq<T>;

    open spec fn view(&self) -> Seq<T> {
        seq![self.value]
    }
}

impl<T> ScalarData<T> {
    /// Initializes a new [`ScalarData`] instance.
    pub fn new(value: T) -> (r: Self)
        ensures
            r.value == value,
    {
        ScalarData { value }
    }

    /// The number of components: one.
    pub fn len(&self) -> (r: usize)
        ensures
            r == self@.len(),
    {
        1
    }

    /// A scalar is never empty.
    pub fn is_empty(&self) -> (r: bool)
        ensures
            r == (self@.len() == 0),
    {
        false
    }
}

impl<T> core::ops::Index<usize> for ScalarData<T> {
    type Output = T;

    fn index(&self, index: usize) -> (r: &T)
        ensures
            *r == self@[index as int],
    {
        &self.value
    }
}

impl<T> vstd::std_specs::core::IndexSpecImpl<usize> for ScalarData<T> {
    open spec fn index_req(&self, index: &usize) -> bool {
        *index < 1
    }
}

impl<T> From<T> for ScalarData<T> {
    fn from(value: T) -> (r: ScalarData<T>) {
        ScalarData { value }
    }
}

impl<T> vstd::std_specs::convert::FromSpecImpl<T> for ScalarData<T> {
    open spec fn obeys_from_spec() -> bool {
        true
    }

    open spec fn from_spec(v: T) -> ScalarData<T> {
        ScalarData { value: v }
    }
}

impl<T: Component> Codec for ScalarData<T> {
    open spec fn spec_encode(&self) -> Seq<u8> {
        self.value.spec_encode()
    }

    open spec fn spec_decode(s: Seq<u8>) -> Result<(ScalarData<T>, nat), DecodeError> {
        match T::spec_decode(s) {
            Err(e) => Err(e),
            Ok((value, n)) => Ok((ScalarData { value }, n)),
        }
    }

    proof fn lemma_round_trip(&self, rest: Seq<u8>) {
        self.value.lemma_round_trip(rest);
    }

    proof fn lemma_decode_within(s: Seq<u8>) {
        T::lemma_decode_within(s);
    }

    fn encoded_len(&self) -> (n: usize) {
        self.value.encoded_len()
    }

    fn encode_to(&self, buf: &mut [u8], pos: usize) -> (end: usize) {
        self.value.encode_to(buf, pos)
    }

    fn decode_from(buf: &[u8], pos: usize) -> (r: Result<(ScalarData<T>, usize), DecodeError>) {
        match T::decode_from(buf, pos) {
            Ok((value, end)) => Ok((ScalarData { value }, end)),
            Err(e) => Err(e),
        }
    }
}

/// A two-dimensional vector.
#[derive(Clone, Copy, Debug, Default, PartialEq, Eq, Hash, PartialOrd, Ord)]
pub struct Vector2Data<T> {
    /// First vector component.
    pub x: T,
    /// Second vector component.
    pub y: T,
}

impl<T> View for Vector2Data<T> {
    type V = Seq<T>;

    open spec fn view(&self) -> Seq<T> {
        seq![self.x, self.y]
    }
}

impl<T> Vector2Data<T> {
    /// Initializes a new [`Vector2Data`] instance.
    pub fn new(x: T, y: T) -> (r: Self)
        ensures
            r.x == x,
            r.y == y,
    {
        Vector2Data { x, y }
    }

    /// The number of components: two.
    pub fn len(&self) -> (r: usize)
        ensures
            r == self@.len(),
    {
        2
    }

    /// A vector is never empty.
    pub fn is_empty(&self) -> (r: bool)
        ensures
            r == (self@.len() == 0),
    {
        false
    }
}

impl<T> core::ops::Index<usize> for Vector2Data<T> {
    type Output = T;

    fn index(&self, index: usize) -> (r: &T)
        ensures
            *r == self@[index as int],
    {
        if index == 0 {
            &self.x
        } else {
            &self.y
        }
    }
}

impl<T> vstd::std_specs::core::IndexSpecImpl<usize> for Vector2Data<T> {
    open spec fn index_req(&self, index: &usize) -> bool {
        *index < 2
    }
}

impl<T: Copy> From<[T; 2]> for Vector2Data<T> {
    fn from(value: [T; 2]) -> (r: Vector2Data<T>) {
        Vector2Data { x: value[0], y: value[1] }
    }
}

impl<T: Copy> vstd::std_specs::convert::FromSpecImpl<[T; 2]> for Vector2Data<T> {
    open spec fn obeys_from_spec() -> bool {
        true
    }

    open spec fn from_spec(v: [T; 2]) -> Vector2Data<T> {
        Vector2Data { x: v@[0], y: v@[1] }
    }
}

impl<T: Component> Codec for Vector2Data<T> {
    open spec fn spec_encode(&self) -> Seq<u8> {
        self.x.spec_encode() + self.y.spec_encode()
    }

    open spec fn spec_decode(s: Seq<u8>) -> Result<(Vector2Data<T>, nat), DecodeError> {
        match T::spec_decode(s) {
            Err(e) => Err(e),
            Ok((x, n0)) => match T::spec_decode(s.skip(n0 as int)) {
                Err(e) => Err(e),
                Ok((y, n1)) => Ok((Vector2Data { x, y }, n0 + n1)),
            },
        }
    }

    proof fn lemma_round_trip(&self, rest: Seq<u8>) {
        let (e0, e1) = (self.x.spec_encode(), self.y.spec_encode());
        assert(e0 + e1 + rest =~= e0 + (e1 + rest));
        lemma_field(self.x, e1 + rest);
        lemma_field(self.y, rest);
    }

    proof fn lemma_decode_within(s: Seq<u8>) {
        T::lemma_decode_within(s);
        if let Ok((_, n0)) = T::spec_decode(s) {
            T::lemma_decode_within(s.skip(n0 as int));
        }
    }

    fn encoded_len(&self) -> (n: usize) {
        proof {
            self.x.lemma_small();
            self.y.lemma_small();
        }
        self.x.encoded_len() + self.y.encoded_len()
    }

    fn encode_to(&self, buf: &mut [u8], pos: usize) -> (end: usize) {
        let ghost s0 = buf@;
        let p1 = self.x.encode_to(buf, pos);
        let p2 = self.y.encode_to(buf, p1);
        proof {
            lemma_spliced_twice(s0, pos as int, self.x.spec_encode(), self.y.spec_encode());
        }
        p2
    }

    fn decode_from(buf: &[u8], pos: usize) -> (r: Result<(Vector2Data<T>, usize), DecodeError>) {
        assert(buf@.len() == buf.len());
        let (x, p1) = match T::decode_from(buf, pos) {
            Ok(v) => v,
            Err(e) => return Err(e),
        };
        proof {
            T::lemma_decode_within(buf@.skip(pos as int));
            lemma_skip_skip(buf@, pos as int, p1 - pos);
        }
        let (y, p2) = match T::decode_from(buf, p1) {
            Ok(v) => v,
            Err(e) => return Err(e),
        };
        Ok((Vector2Data { x, y }, p2))
    }
}

/// A three-dimensional vector.
#[derive(Clone, Copy, Debug, Default, PartialEq, Eq, Hash, PartialOrd, Ord)]
pub struct Vector3Data<T> {
    /// First vector component.
    pub x: T,
    /// Second vector component.
    pub y: T,
    /// Third vector component.
    pub z: T,
}

impl<T> View for Vector3Data<T> {
    type V = Seq<T>;

    open spec fn view(&self) -> Seq<T> {
        seq![self.x, self.y, self.z]
    }
}

impl<T> Vector3Data<T> {
    /// Initializes a new [`Vector3Data`] instance.
    pub fn new(x: T, y: T, z: T) -> (r: Self)
        ensures
            r.x == x,
            r.y == y,
            r.z == z,
    {
        Vector3Data { x, y, z }
    }

    /// The number of components: three.
    pub fn len(&self) -> (r: usize)
        ensures
            r == self@.len(),
    {
        3
    }

    /// A vector is never empty.
    pub fn is_empty(&self) -> (r: bool)
        ensures
            r == (self@.len() == 0),
    {
        false
    }
}

impl<T> core::ops::Index<usize> for Vector3Data<T> {
    type Output = T;

    fn index(&self, index: usize) -> (r: &T)
        ensures
            *r == self@[index as int],
    {
        if index == 0 {
            &self.x
        } else if index == 1 {
            &self.y
        } else {
            &self.z
        }
    }
}

impl<T> vstd::std_specs::core::IndexSpecImpl<usize> for Vector3Data<T> {
    open spec fn index_req(&self, index: &usize) -> bool {
        *index < 3
    }
}

impl<T: Copy> From<[T; 3]> for Vector3Data<T> {
    fn from(value: [T; 3]) -> (r: Vector3Data<T>) {
        Vector3Data { x: value[0], y: value[1], z: value[2] }
    }
}

impl<T: Copy> vstd::std_specs::convert::FromSpecImpl<[T; 3]> for Vector3Data<T> {
    open spec fn obeys_from_spec() -> bool {
        true
    }

    open spec fn from_spec(v: [T; 3]) -> Vector3Data<T> {
        Vector3Data { x: v@[0], y: v@[1], z: v@[2] }
    }
}

impl<T: Component> Codec for Vector3Data<T> {
    open spec fn spec_encode(&self) -> Seq<u8> {
        self.x.spec_encode() + self.y.spec_encode() + self.z.spec_encode()
    }

    open spec fn spec_decode(s: Seq<u8>) -> Result<(Vector3Data<T>, nat), DecodeError> {
        match T::spec_decode(s) {
            Err(e) => Err(e),
            Ok((x, n0)) => match T::spec_decode(s.skip(n0 as int)) {
                Err(e) => Err(e),
                Ok((y, n1)) => match T::spec_decode(s.skip(n0 as int).skip(n1 as int)) {
                    Err(e) => Err(e),
                    Ok((z, n2)) => Ok((Vector3Data { x, y, z }, n0 + n1 + n2)),
                },
            },
        }
    }

    proof fn lemma_round_trip(&self, rest: Seq<u8>) {
        let (e0, e1, e2) = (self.x.spec_encode(), self.y.spec_encode(), self.z.spec_encode());
        assert(e0 + e1 + e2 + rest =~= e0 + (e1 + (e2 + rest)));
        lemma_field(self.x, e1 + (e2 + rest));
        lemma_field(self.y, e2 + rest);
        lemma_field(self.z, rest);
    }

    proof fn lemma_decode_within(s: Seq<u8>) {
        T::lemma_decode_within(s);
        if let Ok((_, n0)) = T::spec_decode(s) {
            T::lemma_decode_within(s.skip(n0 as int));
            if let Ok((_, n1)) = T::spec_decode(s.skip(n0 as int)) {
                T::lemma_decode_within(s.skip(n0 as int).skip(n1 as int));
            }
        }
    }

    fn encoded_len(&self) -> (n: usize) {
        proof {
            self.x.lemma_small();
            self.y.lemma_small();
            self.z.lemma_small();
        }
        self.x.encoded_len() + self.y.encoded_len() + self.z.encoded_len()
    }

    fn encode_to(&self, buf: &mut [u8], pos: usize) -> (end: usize) {
        let ghost s0 = buf@;
        let p1 = self.x.encode_to(buf, pos);
        let p2 = self.y.encode_to(buf, p1);
        let p3 = self.z.encode_to(buf, p2);
        proof {
            lemma_spliced_twice(s0, pos as int, self.x.spec_encode(), self.y.spec_encode());
            lemma_spliced_twice(
                s0,
                pos as int,
                self.x.spec_encode() + self.y.spec_encode(),
                self.z.spec_encode(),
            );
        }
        p3
    }

    fn decode_from(buf: &[u8], pos: usize) -> (r: Result<(Vector3Data<T>, usize), DecodeError>) {
        assert(buf@.len() == buf.len());
        let (x, p1) = match T::decode_from(buf, pos) {
            Ok(v) => v,
            Err(e) => return Err(e),
        };
        proof {
            T::lemma_decode_within(buf@.skip(pos as int));
            lemma_skip_skip(buf@, pos as int, p1 - pos);
        }
        let (y, p2) = match T::decode_from(buf, p1) {
            Ok(v) => v,
            Err(e) => return Err(e),
        };
        proof {
            T::lemma_decode_within(buf@.skip(p1 as int));
            lemma_skip_skip(buf@, p1 as int, p2 - p1);
        }
        let (z, p3) = match T::decode_from(buf, p2) {
            Ok(v) => v,
            Err(e) => return Err(e),
        };
        Ok((Vector3Data { x, y, z }, p3))
    }
}

/// A four-dimensional vector, quaternion, etc.
#[derive(Clone, Copy, Debug, Default, PartialEq, Eq, Hash, PartialOrd, Ord)]
pub struct Vector4Data<T> {
    /// First vector component.
    /// In quaternions, this resembles the `x` axis.
    pub a: T,
    /// Second vector component.
    /// In quaternions, this resembles the `y` axis.
    pub b: T,
    /// Third vector component.
    /// In quaternions, this resembles the `z` axis.
    pub c: T,
    /// Fourth vector component.
    /// In quaternions, this resembles the `w` component.
    pub d: T,
}

impl<T> View for Vector4Data<T> {
    type V = Seq<T>;

    open spec fn view(&self) -> Seq<T> {
        seq![self.a, self.b, self.c, self.d]
    }
}

impl<T> Vector4Data<T> {
    /// Initializes a new [`Vector4Data`] instance.
    pub fn new(a: T, b: T, c: T, d: T) -> (r: Self)
        ensures
            r.a == a,
            r.b == b,
            r.c == c,
            r.d == d,
    {
        Vector4Data { a, b, c, d }
    }

    /// The number of components: four.
    pub fn len(&self) -> (r: usize)
        ensures
            r == self@.len(),
    {
        4
    }

    /// A vector is never empty.
    pub fn is_empty(&self) -> (r: bool)
        ensures
            r == (self@.len() == 0),
    {
        false
    }
}

impl<T> core::ops::Index<usize> for Vector4Data<T> {
    type Output = T;

    fn index(&self, index: usize) -> (r: &T)
        ensures
            *r == self@[index as int],
    {
        if index == 0 {
            &self.a
        } else if index == 1 {
            &self.b
        } else if index == 2 {
            &self.c
        } else {
            &self.d
        }
    }
}

impl<T> vstd::std_specs::core::IndexSpecImpl<usize> for Vector4Data<T> {
    open spec fn index_req(&self, index: &usize) -> bool {
        *index < 4
    }
}

impl<T: Copy> From<[T; 4]> for Vector4Data<T> {
    fn from(value: [T; 4]) -> (r: Vector4Data<T>) {
        Vector4Data { a: value[0], b: value[1], c: value[2], d: value[3] }
    }
}

impl<T: Copy> vstd::std_specs::convert::FromSpecImpl<[T; 4]> for Vector4Data<T> {
    open spec fn obeys_from_spec() -> bool {
        true
    }

    open spec fn from_spec(v: [T; 4]) -> Vector4Data<T> {
        Vector4Data { a: v@[0], b: v@[1], c: v@[2], d: v@[3] }
    }
}

impl<T: Component> Codec for Vector4Data<T> {
    open spec fn spec_encode(&self) -> Seq<u8> {
        self.a.spec_encode() + self.b.spec_encode() + self.c.spec_encode() + self.d.spec_encode()
    }

    open spec fn spec_decode(s: Seq<u8>) -> Result<(Vector4Data<T>, nat), DecodeError> {
        match T::spec_decode(s) {
            Err(e) => Err(e),
            Ok((a, n0)) => {
                let s1 = s.skip(n0 as int);
                match T::spec_decode(s1) {
                    Err(e) => Err(e),
                    Ok((b, n1)) => {
                        let s2 = s1.skip(n1 as int);
                        match T::spec_decode(s2) {
                            Err(e) => Err(e),
                            Ok((c, n2)) => match T::spec_decode(s2.skip(n2 as int)) {
                                Err(e) => Err(e),
                                Ok((d, n3)) => Ok((Vector4Data { a, b, c, d }, n0 + n1 + n2 + n3)),
                            },
                        }
                    },
                }
            },
        }
    }

    proof fn lemma_round_trip(&self, rest: Seq<u8>) {
        let (e0, e1, e2, e3) = (
            self.a.spec_encode(),
            self.b.spec_encode(),
            self.c.spec_encode(),
            self.d.spec_encode(),
        );
        assert(e0 + e1 + e2 + e3 + rest =~= e0 + (e1 + (e2 + (e3 + rest))));
        lemma_field(self.a, e1 + (e2 + (e3 + rest)));
        lemma_field(self.b, e2 + (e3 + rest));
        lemma_field(self.c, e3 + rest);
        lemma_field(self.d, rest);
    }

    proof fn lemma_decode_within(s: Seq<u8>) {
        T::lemma_decode_within(s);
        if let Ok((_, n0)) = T::spec_decode(s) {
            let s1 = s.skip(n0 as int);
            T::lemma_decode_within(s1);
            if let Ok((_, n1)) = T::spec_decode(s1) {
                let s2 = s1.skip(n1 as int);
                T::lemma_decode_within(s2);
                if let Ok((_, n2)) = T::spec_decode(s2) {
                    T::lemma_decode_within(s2.skip(n2 as int));
                }
            }
        }
    }

    fn encoded_len(&self) -> (n: usize) {
        proof {
            self.a.lemma_small();
            self.b.lemma_small();
            self.c.lemma_small();
            self.d.lemma_small();
        }
        self.a.encoded_len() + self.b.encoded_len() + self.c.encoded_len() + self.d.encoded_len()
    }

    fn encode_to(&self, buf: &mut [u8], pos: usize) -> (end: usize) {
        let ghost s0 = buf@;
        let ghost (e0, e1, e2, e3) = (
            self.a.spec_encode(),
            self.b.spec_encode(),
            self.c.spec_encode(),
            self.d.spec_encode(),
        );
        let p1 = self.a.encode_to(buf, pos);
        let p2 = self.b.encode_to(buf, p1);
        let p3 = self.c.encode_to(buf, p2);
        let p4 = self.d.encode_to(buf, p3);
        proof {
            lemma_spliced_twice(s0, pos as int, e0, e1);
            lemma_spliced_twice(s0, pos as int, e0 + e1, e2);
            lemma_spliced_twice(s0, pos as int, e0 + e1 + e2, e3);
        }
        p4
    }

    fn decode_from(buf: &[u8], pos: usize) -> (r: Result<(Vector4Data<T>, usize), DecodeError>) {
        assert(buf@.len() == buf.len());
        let (a, p1) = match T::decode_from(buf, pos) {
            Ok(v) => v,
            Err(e) => return Err(e),
        };
        proof {
            T::lemma_decode_within(buf@.skip(pos as int));
            lemma_skip_skip(buf@, pos as int, p1 - pos);
        }
        let (b, p2) = match T::decode_from(buf, p1) {
            Ok(v) => v,
            Err(e) => return Err(e),
        };
        proof {
            T::lemma_decode_within(buf@.skip(p1 as int));
            lemma_skip_skip(buf@, p1 as int, p2 - p1);
        }
        let (c, p3) = match T::decode_from(buf, p2) {
            Ok(v) => v,
            Err(e) => return Err(e),
        };
        proof {
            T::lemma_decode_within(buf@.skip(p2 as int));
            lemma_skip_skip(buf@, p2 as int, p3 - p2);
        }
        let (d, p4) = match T::decode_from(buf, p3) {
            Ok(v) => v,
            Err(e) => return Err(e),
        };
        Ok((Vector4Data { a, b, c, d }, p4))
    }
}

} // verus!
