use vstd::prelude::*;

verus! {

/// What `String::from_utf8_lossy` makes of a byte string.
pub uninterp spec fn lossy_utf8(b: Seq<u8>) -> Seq<char>;

/// Every byte is a 7-bit ASCII code.
pub open spec fn is_ascii_bytes(b: Seq<u8>) -> bool {
    forall|i: int| 0 <= i < b.len() ==> b[i] < 128
}

/// The characters whose codes are the given bytes.
pub open spec fn ascii_chars(b: Seq<u8>) -> Seq<char> {
    b.map_values(|x: u8| x as char)
}

/// Relies on `String::from_utf8_lossy`: the result depends on the bytes
/// alone, and a byte string that is valid UTF-8 (ASCII in particular) comes
/// back unchanged.
#[verifier::external_body]
fn string_from_utf8_lossy(b: &[u8]) -> (r: String)
    ensures
        r@ == lossy_utf8(b@),
        is_ascii_bytes(b@) ==> r@ == ascii_chars(b@),
{
    String::from_utf8_lossy(b).into_owned()
}

/// The index of the first zero byte at or after `i`, if there is one.
pub open spec fn find_nul(b: Seq<u8>, i: int) -> Option<int>
    decreases b.len() - i,
{
    if i < 0 || i >= b.len() {
        None
    } else if b[i] == 0 {
        Some(i)
    } else {
        find_nul(b, i + 1)
    }
}

/// A little-endian unsigned 16-bit value at `p`.
pub open spec fn le_u16(b: Seq<u8>, p: int) -> int {
    b[p] + 256 * b[p + 1]
}

/// A little-endian two's-complement 32-bit value at `p`.
pub open spec fn le_i32(b: Seq<u8>, p: int) -> int {
    let u = b[p] + 0x100 * b[p + 1] + 0x1_0000 * b[p + 2] + 0x100_0000 * b[p + 3];
    if b[p + 3] < 0x80 {
        u
    } else {
        u - 0x1_0000_0000
    }
}

/// Why a read from a `ByteReader` failed.
#[derive(Debug, Clone, Copy, PartialEq, Eq, Structural)]
pub enum ReadError {
    /// Fewer bytes are left than the read needs.
    UnexpectedEof,
    /// The rest of the input holds no zero byte to end a string.
    NoNullByte,
}

impl ReadError {
    /// A sentence that describes the error.
    pub fn to_string(&self) -> (r: String) {
        match self {
            ReadError::UnexpectedEof => "Unexpected end of input".to_owned(),
            ReadError::NoNullByte => "No null byte found in reader".to_owned(),
        }
    }
}

/// A cursor over a byte string, read from the front.
pub struct ByteReader<'a> {
    data: &'a [u8],
    pos: usize,
}

impl<'a> ByteReader<'a> {
    #[verifier::type_invariant]
    spec fn inv(&self) -> bool {
        self.pos <= self.data@.len()
    }

    /// The whole input.
    pub closed spec fn data(&self) -> Seq<u8> {
        self.data@
    }

    /// How many bytes have been consumed.
    pub closed spec fn pos(&self) -> int {
        self.pos as int
    }

    pub fn new(data: &'a [u8]) -> (r: Self)
        ensures
            r.data() == data@,
            r.pos() == 0,
    {
        ByteReader { data, pos: 0 }
    }

    pub fn position(&self) -> (r: usize)
        ensures
            r == self.pos(),
            self.pos() <= self.data().len(),
    {
        proof {
            use_type_invariant(self);
        }
        self.pos
    }

    /// The next byte.
    pub fn read_u8(&mut self) -> (r: Result<u8, ReadError>)
        ensures
            final(self).data() == old(self).data(),
            final(self).pos() <= final(self).data().len(),
            old(self).pos() < old(self).data().len() ==> r == Ok::<u8, ReadError>(
                old(self).data()[old(self).pos()],
            ) && final(self).pos() == old(self).pos() + 1,
            old(self).pos() >= old(self).data().len() ==> r == Err::<u8, ReadError>(
                ReadError::UnexpectedEof,
            ) && final(self).pos() == old(self).pos(),
    {
        proof {
            use_type_invariant(&*self);
        }
        if self.pos < self.data.len() {
            let b = self.data[self.pos];
            self.pos = self.pos + 1;
            Ok(b)
        } else {
            Err(ReadError::UnexpectedEof)
        }
    }
    /// A little-endian unsigned 16-bit value.
    pub fn read_u16_le(&mut self) -> (r: Result<u16, ReadError>)
        ensures
            final(self).data() == old(self).data(),
            final(self).pos() <= final(self).data().len(),
            old(self).pos() + 2 <= old(self).data().len() ==> r == Ok::<u16, ReadError>(
                le_u16(old(self).data(), old(self).pos()) as u16,
            ) && final(self).pos() == old(self).pos() + 2,
            old(self).pos() + 2 > old(self).data().len() ==> r == Err::<u16, ReadError>(
                ReadError::UnexpectedEof,
            ) && final(self).pos() == old(self).pos(),
    {
        proof {
            use_type_invariant(&*self);
        }
        if self.data.len() - self.pos >= 2 {
            let lo = self.data[self.pos] as u16;
            let hi = self.data[self.pos + 1] as u16;
            self.pos = self.pos + 2;
            Ok(lo + 256 * hi)
        } else {
            Err(ReadError::UnexpectedEof)
        }
    }

    /// A little-endian two's-complement 32-bit value.
    pub fn read_i32_le(&mut self) -> (r: Result<i32, ReadError>)
        ensures
            final(self).data() == old(self).data(),
            final(self).pos() <= final(self).data().len(),
            old(self).pos() + 4 <= old(self).data().len() ==> r == Ok::<i32, ReadError>(
                le_i32(old(self).data(), old(self).pos()) as i32,
            ) && final(self).pos() == old(self).pos() + 4,
            old(self).pos() + 4 > old(self).data().len() ==> r == Err::<i32, ReadError>(
                ReadError::UnexpectedEof,
            ) && final(self).pos() == old(self).pos(),
    {
        proof {
            use_type_invariant(&*self);
        }
        if self.data.len() - self.pos >= 4 {
            let p = self.pos;
            let low: i32 = self.data[p] as i32 + 0x100 * (self.data[p + 1] as i32) + 0x1_0000 * (
            self.data[p + 2] as i32);
            let top = self.data[p + 3];
            let v: i32 = if top < 0x80 {
                low + 0x100_0000 * (top as i32)
            } else {
                low + 0x100_0000 * ((top - 0x80) as i32) + i32::MIN
            };
            self.pos = p + 4;
            Ok(v)
        } else {
            Err(ReadError::UnexpectedEof)
        }
    }

    /// The next `n` bytes.
    pub fn read_exact(&mut self, n: usize) -> (r: Result<&'a [u8], ReadError>)
        ensures
            final(self).data() == old(self).data(),
            final(self).pos() <= final(self).data().len(),
            old(self).pos() + n <= old(self).data().len() ==> (r matches Ok(s) && s@
                == old(self).data().subrange(old(self).pos(), old(self).pos() + n)
                && final(self).pos() == old(self).pos() + n),
            old(self).pos() + n > old(self).data().len() ==> r == Err::<&'a [u8], ReadError>(
                ReadError::UnexpectedEof,
            ) && final(self).pos() == old(self).pos(),
    {
        proof {
            use_type_invariant(&*self);
        }
        if self.data.len() - self.pos >= n {
            let start = self.pos;
            let s = &self.data[start..start + n];
            self.pos = start + n;
            Ok(s)
        } else {
            Err(ReadError::UnexpectedEof)
        }
    }

    /// The bytes up to the next zero byte, decoded leniently as UTF-8; the
    /// zero byte is consumed and left out. Without a zero byte the whole rest
    /// is consumed and the read fails.
    pub fn read_stringz(&mut self) -> (r: Result<String, ReadError>)
        ensures
            final(self).data() == old(self).data(),
            final(self).pos() <= final(self).data().len(),
            match find_nul(old(self).data(), old(self).pos()) {
                Some(e) => (r matches Ok(s) && s@ == lossy_utf8(
                    old(self).data().subrange(old(self).pos(), e),
                ) && (is_ascii_bytes(old(self).data().subrange(old(self).pos(), e)) ==> s@
                    == ascii_chars(old(self).data().subrange(old(self).pos(), e)))
                    && final(self).pos() == e + 1),
                None => r == Err::<String, ReadError>(ReadError::NoNullByte) && final(self).pos()
                    == old(self).data().len(),
            },
    {
        proof {
            use_type_invariant(&*self);
        }
        let start = self.pos;
        let mut i: usize = start;
        while i < self.data.len()
            invariant
                start <= i <= self.data@.len(),
                start == self.pos,
                self.data@ == old(self).data(),
                self.pos == old(self).pos(),
                find_nul(self.data@, start as int) == find_nul(self.data@, i as int),
            decreases self.data@.len() - i,
        {
            if self.data[i] == 0 {
                let s = string_from_utf8_lossy(&self.data[start..i]);
                self.pos = i + 1;
                return Ok(s);
            }
            i = i + 1;
        }
        self.pos = i;
        Err(ReadError::NoNullByte)
    }
}

} // verus!
