use vstd::prelude::*;

verus! {

use crate::util::Sealed;

/// Selects the native integer width used for sizes and offsets on a target.
/// Each architecture names one of these as its index size.
pub struct _8Bit;

pub struct _16Bit;

pub struct _32Bit;

pub struct _64Bit;

/// The pointer-sized width of the host.
pub struct Size;

/// An index-width policy: the unsigned type used for extents and offsets and
/// the signed type used for strides of a given width.
pub trait SizeType: Sealed {
    type Unsigned: AsUsize;

    type Signed: AsIsize;
}

/// An unsigned integer type whose values widen losslessly to `usize` as far
/// as `usize` can hold them.
pub trait AsUsize: Sealed + Copy {
    spec fn as_usize_spec(self) -> usize;

    fn as_(self) -> (r: usize)
        ensures
            r == self.as_usize_spec(),
    ;
}

/// A signed integer type whose values widen to `isize` as far as `isize` can
/// hold them.
pub trait AsIsize: Sealed + Copy {
    spec fn as_isize_spec(self) -> isize;

    fn as_(self) -> (r: isize)
        ensures
            r == self.as_isize_spec(),
    ;
}

impl Sealed for u8 {

}

impl Sealed for u16 {

}

impl Sealed for u32 {

}

impl Sealed for u64 {

}

impl Sealed for usize {

}

impl Sealed for i8 {

}

impl Sealed for i16 {

}

impl Sealed for i32 {

}

impl Sealed for i64 {

}

impl Sealed for isize {

}

impl Sealed for _8Bit {

}

impl Sealed for _16Bit {

}

impl Sealed for _32Bit {

}

impl Sealed for _64Bit {

}

impl Sealed for Size {

}

impl AsUsize for u8 {
    open spec fn as_usize_spec(self) -> usize {
        self as usize
    }

    fn as_(self) -> usize {
        self as usize
    }
}

impl AsUsize for u16 {
    open spec fn as_usize_spec(self) -> usize {
        self as usize
    }

    fn as_(self) -> usize {
        self as usize
    }
}

impl AsUsize for u32 {
    open spec fn as_usize_spec(self) -> usize {
        self as usize
    }

    fn as_(self) -> usize {
        self as usize
    }
}

impl AsUsize for u64 {
    open spec fn as_usize_spec(self) -> usize {
        self as usize
    }

    fn as_(self) -> usize {
        self as usize
    }
}

impl AsUsize for usize {
    open spec fn as_usize_spec(self) -> usize {
        self
    }

    fn as_(self) -> usize {
        self
    }
}

impl AsIsize for i8 {
    open spec fn as_isize_spec(self) -> isize {
        self as isize
    }

    fn as_(self) -> isize {
        self as isize
    }
}

impl AsIsize for i16 {
    open spec fn as_isize_spec(self) -> isize {
        self as isize
    }

    fn as_(self) -> isize {
        self as isize
    }
}

impl AsIsize for i32 {
    open spec fn as_isize_spec(self) -> isize {
        self as isize
    }

    fn as_(self) -> isize {
        self as isize
    }
}

impl AsIsize for i64 {
    open spec fn as_isize_spec(self) -> isize {
        self as isize
    }

    fn as_(self) -> isize {
        self as isize
    }
}

impl AsIsize for isize {
    open spec fn as_isize_spec(self) -> isize {
        self
    }

    fn as_(self) -> isize {
        self
    }
}

impl SizeType for _8Bit {
    type Unsigned = u8;

    type Signed = i8;
}

impl SizeType for _16Bit {
    type Unsigned = u16;

    type Signed = i16;
}

impl SizeType for _32Bit {
    type Unsigned = u32;

    type Signed = i32;
}

impl SizeType for _64Bit {
    type Unsigned = u64;

    type Signed = i64;
}

impl SizeType for Size {
    type Unsigned = usize;

    type Signed = isize;
}

} // verus!
