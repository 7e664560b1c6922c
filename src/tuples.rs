use vstd::prelude::*;

use crate::cursor::Cursor;
use crate::error::{Error, Fault};
use crate::{Descriptor, Endian, TigerReadable};

verus! {

/// `a + b`, or `usize::MAX` where that does not fit.
pub open spec fn size_sum(a: usize, b: usize) -> usize {
    if a + b > usize::MAX {
        usize::MAX
    } else {
        (a + b) as usize
    }
}

fn size_sum_exec(a: usize, b: usize) -> (r: usize)
    ensures
        r == size_sum(a, b),
{
    match a.checked_add(b) {
        Some(s) => s,
        None => usize::MAX,
    }
}

impl<T: TigerReadable> TigerReadable for Box<T> {
    type Model = T::Model;

    open spec fn model(&self) -> T::Model {
        (**self).model()
    }

    open spec fn spec_decode(data: Seq<u8>, pos: int, endian: Endian) -> Result<(T::Model, int), Fault> {
        T::spec_decode(data, pos, endian)
    }

    open spec fn spec_descriptor() -> Descriptor {
        Descriptor { is_zero_copy: false, size: T::spec_descriptor().size, id: None, etype: None }
    }

    fn descriptor() -> (d: Descriptor) {
        let inner = T::descriptor();
        Descriptor { is_zero_copy: false, size: inner.size, id: None, etype: None }
    }

    fn read_ds_endian(reader: &mut Cursor, endian: Endian) -> (r: Result<Box<T>, Error>) {
        let v = T::read_ds_endian(reader, endian)?;
        Ok(Box::new(v))
    }
}

impl<A: TigerReadable> TigerReadable for (A,) {
    type Model = (A::Model,);

    open spec fn model(&self) -> (A::Model,) {
        (self.0.model(),)
    }

    open spec fn spec_decode(data: Seq<u8>, pos: int, endian: Endian) -> Result<((A::Model,), int), Fault> {
        match A::spec_decode(data, pos, endian) {
            Err(f) => Err(f),
            Ok((a, p0)) => {
                Ok(((a,), p0))
            },
        }
    }

    open spec fn spec_descriptor() -> Descriptor {
        Descriptor {
            is_zero_copy: A::spec_descriptor().is_zero_copy,
            size: size_sum(0usize, A::spec_descriptor().size),
            id: None,
            etype: None,
        }
    }

    fn descriptor() -> (d: Descriptor) {
        let is_zero_copy = A::descriptor().is_zero_copy;
        let mut size: usize = 0;
        size = size_sum_exec(size, A::descriptor().size);
        Descriptor { is_zero_copy, size, id: None, etype: None }
    }

    fn read_ds_endian(reader: &mut Cursor, endian: Endian) -> (r: Result<(A,), Error>) {
        let a = A::read_ds_endian(reader, endian)?;
        Ok((a,))
    }
}

impl<A: TigerReadable, B: TigerReadable> TigerReadable for (A, B) {
    type Model = (A::Model, B::Model);

    open spec fn model(&self) -> (A::Model, B::Model) {
        (self.0.model(), self.1.model())
    }

    open spec fn spec_decode(data: Seq<u8>, pos: int, endian: Endian) -> Result<((A::Model, B::Model), int), Fault> {
        match A::spec_decode(data, pos, endian) {
            Err(f) => Err(f),
            Ok((a, p0)) => {
                match B::spec_decode(data, p0, endian) {
                    Err(f) => Err(f),
                    Ok((b, p1)) => {
                        Ok(((a, b), p1))
                    },
                }
            },
        }
    }

    open spec fn spec_descriptor() -> Descriptor {
        Descriptor {
            is_zero_copy: A::spec_descriptor().is_zero_copy && B::spec_descriptor().is_zero_copy,
            size: size_sum(size_sum(0usize, A::spec_descriptor().size), B::spec_descriptor().size),
            id: None,
            etype: None,
        }
    }

    fn descriptor() -> (d: Descriptor) {
        let is_zero_copy = A::descriptor().is_zero_copy && B::descriptor().is_zero_copy;
        let mut size: usize = 0;
        size = size_sum_exec(size, A::descriptor().size);
        size = size_sum_exec(size, B::descriptor().size);
        Descriptor { is_zero_copy, size, id: None, etype: None }
    }

    fn read_ds_endian(reader: &mut Cursor, endian: Endian) -> (r: Result<(A, B), Error>) {
        let a = A::read_ds_endian(reader, endian)?;
        let b = B::read_ds_endian(reader, endian)?;
        Ok((a, b))
    }
}

impl<A: TigerReadable, B: TigerReadable, C: TigerReadable> TigerReadable for (A, B, C) {
    type Model = (A::Model, B::Model, C::Model);

    open spec fn model(&self) -> (A::Model, B::Model, C::Model) {
        (self.0.model(), self.1.model(), self.2.model())
    }

    open spec fn spec_decode(data: Seq<u8>, pos: int, endian: Endian) -> Result<((A::Model, B::Model, C::Model), int), Fault> {
        match A::spec_decode(data, pos, endian) {
            Err(f) => Err(f),
            Ok((a, p0)) => {
                match B::spec_decode(data, p0, endian) {
                    Err(f) => Err(f),
                    Ok((b, p1)) => {
                        match C::spec_decode(data, p1, endian) {
                            Err(f) => Err(f),
                            Ok((c, p2)) => {
                                Ok(((a, b, c), p2))
                            },
                        }
                    },
                }
            },
        }
    }

    open spec fn spec_descriptor() -> Descriptor {
        Descriptor {
            is_zero_copy: A::spec_descriptor().is_zero_copy && B::spec_descriptor().is_zero_copy && C::spec_descriptor().is_zero_copy,
            size: size_sum(size_sum(size_sum(0usize, A::spec_descriptor().size), B::spec_descriptor().size), C::spec_descriptor().size),
            id: None,
            etype: None,
        }
    }

    fn descriptor() -> (d: Descriptor) {
        let is_zero_copy = A::descriptor().is_zero_copy && B::descriptor().is_zero_copy && C::descriptor().is_zero_copy;
        let mut size: usize = 0;
        size = size_sum_exec(size, A::descriptor().size);
        size = size_sum_exec(size, B::descriptor().size);
        size = size_sum_exec(size, C::descriptor().size);
        Descriptor { is_zero_copy, size, id: None, etype: None }
    }

    fn read_ds_endian(reader: &mut Cursor, endian: Endian) -> (r: Result<(A, B, C), Error>) {
        let a = A::read_ds_endian(reader, endian)?;
        let b = B::read_ds_endian(reader, endian)?;
        let c = C::read_ds_endian(reader, endian)?;
        Ok((a, b, c))
    }
}

impl<A: TigerReadable, B: TigerReadable, C: TigerReadable, D: TigerReadable> TigerReadable for (A, B, C, D) {
    type Model = (A::Model, B::Model, C::Model, D::Model);

    open spec fn model(&self) -> (A::Model, B::Model, C::Model, D::Model) {
        (self.0.model(), self.1.model(), self.2.model(), self.3.model())
    }

    open spec fn spec_decode(data: Seq<u8>, pos: int, endian: Endian) -> Result<((A::Model, B::Model, C::Model, D::Model), int), Fault> {
        match A::spec_decode(data, pos, endian) {
            Err(f) => Err(f),
            Ok((a, p0)) => {
                match B::spec_decode(data, p0, endian) {
                    Err(f) => Err(f),
                    Ok((b, p1)) => {
                        match C::spec_decode(data, p1, endian) {
                            Err(f) => Err(f),
                            Ok((c, p2)) => {
                                match D::spec_decode(data, p2, endian) {
                                    Err(f) => Err(f),
                                    Ok((d, p3)) => {
                                        Ok(((a, b, c, d), p3))
                                    },
                                }
                            },
                        }
                    },
                }
            },
        }
    }

    open spec fn spec_descriptor() -> Descriptor {
        Descriptor {
            is_zero_copy: A::spec_descriptor().is_zero_copy && B::spec_descriptor().is_zero_copy && C::spec_descriptor().is_zero_copy && D::spec_descriptor().is_zero_copy,
            size: size_sum(size_sum(size_sum(size_sum(0usize, A::spec_descriptor().size), B::spec_descriptor().size), C::spec_descriptor().size), D::spec_descriptor().size),
            id: None,
            etype: None,
        }
    }

    fn descriptor() -> (d: Descriptor) {
        let is_zero_copy = A::descriptor().is_zero_copy && B::descriptor().is_zero_copy && C::descriptor().is_zero_copy && D::descriptor().is_zero_copy;
        let mut size: usize = 0;
        size = size_sum_exec(size, A::descriptor().size);
        size = size_sum_exec(size, B::descriptor().size);
        size = size_sum_exec(size, C::descriptor().size);
        size = size_sum_exec(size, D::descriptor().size);
        Descriptor { is_zero_copy, size, id: None, etype: None }
    }

    fn read_ds_endian(reader: &mut Cursor, endian: Endian) -> (r: Result<(A, B, C, D), Error>) {
        let a = A::read_ds_endian(reader, endian)?;
        let b = B::read_ds_endian(reader, endian)?;
        let c = C::read_ds_endian(reader, endian)?;
        let d = D::read_ds_endian(reader, endian)?;
        Ok((a, b, c, d))
    }
}

impl<A: TigerReadable, B: TigerReadable, C: TigerReadable, D: TigerReadable, E: TigerReadable> TigerReadable for (A, B, C, D, E) {
    type Model = (A::Model, B::Model, C::Model, D::Model, E::Model);

    open spec fn model(&self) -> (A::Model, B::Model, C::Model, D::Model, E::Model) {
        (self.0.model(), self.1.model(), self.2.model(), self.3.model(), self.4.model())
    }

    open spec fn spec_decode(data: Seq<u8>, pos: int, endian: Endian) -> Result<((A::Model, B::Model, C::Model, D::Model, E::Model), int), Fault> {
        match A::spec_decode(data, pos, endian) {
            Err(f) => Err(f),
            Ok((a, p0)) => {
                match B::spec_decode(data, p0, endian) {
                    Err(f) => Err(f),
                    Ok((b, p1)) => {
                        match C::spec_decode(data, p1, endian) {
                            Err(f) => Err(f),
                            Ok((c, p2)) => {
                                match D::spec_decode(data, p2, endian) {
                                    Err(f) => Err(f),
                                    Ok((d, p3)) => {
                                        match E::spec_decode(data, p3, endian) {
                                            Err(f) => Err(f),
                                            Ok((e, p4)) => {
                                                Ok(((a, b, c, d, e), p4))
                                            },
                                        }
                                    },
                                }
                            },
                        }
                    },
                }
            },
        }
    }

    open spec fn spec_descriptor() -> Descriptor {
        Descriptor {
            is_zero_copy: A::spec_descriptor().is_zero_copy && B::spec_descriptor().is_zero_copy && C::spec_descriptor().is_zero_copy && D::spec_descriptor().is_zero_copy && E::spec_descriptor().is_zero_copy,
            size: size_sum(size_sum(size_sum(size_sum(size_sum(0usize, A::spec_descriptor().size), B::spec_descriptor().size), C::spec_descriptor().size), D::spec_descriptor().size), E::spec_descriptor().size),
            id: None,
            etype: None,
        }
    }

    fn descriptor() -> (d: Descriptor) {
        let is_zero_copy = A::descriptor().is_zero_copy && B::descriptor().is_zero_copy && C::descriptor().is_zero_copy && D::descriptor().is_zero_copy && E::descriptor().is_zero_copy;
        let mut size: usize = 0;
        size = size_sum_exec(size, A::descriptor().size);
        size = size_sum_exec(size, B::descriptor().size);
        size = size_sum_exec(size, C::descriptor().size);
        size = size_sum_exec(size, D::descriptor().size);
        size = size_sum_exec(size, E::descriptor().size);
        Descriptor { is_zero_copy, size, id: None, etype: None }
    }

    fn read_ds_endian(reader: &mut Cursor, endian: Endian) -> (r: Result<(A, B, C, D, E), Error>) {
        let a = A::read_ds_endian(reader, endian)?;
        let b = B::read_ds_endian(reader, endian)?;
        let c = C::read_ds_endian(reader, endian)?;
        let d = D::read_ds_endian(reader, endian)?;
        let e = E::read_ds_endian(reader, endian)?;
        Ok((a, b, c, d, e))
    }
}

impl<A: TigerReadable, B: TigerReadable, C: TigerReadable, D: TigerReadable, E: TigerReadable, F: TigerReadable> TigerReadable for (A, B, C, D, E, F) {
    type Model = (A::Model, B::Model, C::Model, D::Model, E::Model, F::Model);

    open spec fn model(&self) -> (A::Model, B::Model, C::Model, D::Model, E::Model, F::Model) {
        (self.0.model(), self.1.model(), self.2.model(), self.3.model(), self.4.model(), self.5.model())
    }

    open spec fn spec_decode(data: Seq<u8>, pos: int, endian: Endian) -> Result<((A::Model, B::Model, C::Model, D::Model, E::Model, F::Model), int), Fault> {
        match A::spec_decode(data, pos, endian) {
            Err(f) => Err(f),
            Ok((a, p0)) => {
                match B::spec_decode(data, p0, endian) {
                    Err(f) => Err(f),
                    Ok((b, p1)) => {
                        match C::spec_decode(data, p1, endian) {
                            Err(f) => Err(f),
                            Ok((c, p2)) => {
                                match D::spec_decode(data, p2, endian) {
                                    Err(f) => Err(f),
                                    Ok((d, p3)) => {
                                        match E::spec_decode(data, p3, endian) {
                                            Err(f) => Err(f),
                                            Ok((e, p4)) => {
                                                match F::spec_decode(data, p4, endian) {
                                                    Err(f) => Err(f),
                                                    Ok((f, p5)) => {
                                                        Ok(((a, b, c, d, e, f), p5))
                                                    },
                                                }
                                            },
                                        }
                                    },
                                }
                            },
                        }
                    },
                }
            },
        }
    }

    open spec fn spec_descriptor() -> Descriptor {
        Descriptor {
            is_zero_copy: A::spec_descriptor().is_zero_copy && B::spec_descriptor().is_zero_copy && C::spec_descriptor().is_zero_copy && D::spec_descriptor().is_zero_copy && E::spec_descriptor().is_zero_copy && F::spec_descriptor().is_zero_copy,
            size: size_sum(size_sum(size_sum(size_sum(size_sum(size_sum(0usize, A::spec_descriptor().size), B::spec_descriptor().size), C::spec_descriptor().size), D::spec_descriptor().size), E::spec_descriptor().size), F::spec_descriptor().size),
            id: None,
            etype: None,
        }
    }

    fn descriptor() -> (d: Descriptor) {
        let is_zero_copy = A::descriptor().is_zero_copy && B::descriptor().is_zero_copy && C::descriptor().is_zero_copy && D::descriptor().is_zero_copy && E::descriptor().is_zero_copy && F::descriptor().is_zero_copy;
        let mut size: usize = 0;
        size = size_sum_exec(size, A::descriptor().size);
        size = size_sum_exec(size, B::descriptor().size);
        size = size_sum_exec(size, C::descriptor().size);
        size = size_sum_exec(size, D::descriptor().size);
        size = size_sum_exec(size, E::descriptor().size);
        size = size_sum_exec(size, F::descriptor().size);
        Descriptor { is_zero_copy, size, id: None, etype: None }
    }

    fn read_ds_endian(reader: &mut Cursor, endian: Endian) -> (r: Result<(A, B, C, D, E, F), Error>) {
        let a = A::read_ds_endian(reader, endian)?;
        let b = B::read_ds_endian(reader, endian)?;
        let c = C::read_ds_endian(reader, endian)?;
        let d = D::read_ds_endian(reader, endian)?;
        let e = E::read_ds_endian(reader, endian)?;
        let f = F::read_ds_endian(reader, endian)?;
        Ok((a, b, c, d, e, f))
    }
}

impl<A: TigerReadable, B: TigerReadable, C: TigerReadable, D: TigerReadable, E: TigerReadable, F: TigerReadable, G: TigerReadable> TigerReadable for (A, B, C, D, E, F, G) {
    type Model = (A::Model, B::Model, C::Model, D::Model, E::Model, F::Model, G::Model);

    open spec fn model(&self) -> (A::Model, B::Model, C::Model, D::Model, E::Model, F::Model, G::Model) {
        (self.0.model(), self.1.model(), self.2.model(), self.3.model(), self.4.model(), self.5.model(), self.6.model())
    }

    open spec fn spec_decode(data: Seq<u8>, pos: int, endian: Endian) -> Result<((A::Model, B::Model, C::Model, D::Model, E::Model, F::Model, G::Model), int), Fault> {
        match A::spec_decode(data, pos, endian) {
            Err(f) => Err(f),
            Ok((a, p0)) => {
                match B::spec_decode(data, p0, endian) {
                    Err(f) => Err(f),
                    Ok((b, p1)) => {
                        match C::spec_decode(data, p1, endian) {
                            Err(f) => Err(f),
                            Ok((c, p2)) => {
                                match D::spec_decode(data, p2, endian) {
                                    Err(f) => Err(f),
                                    Ok((d, p3)) => {
                                        match E::spec_decode(data, p3, endian) {
                                            Err(f) => Err(f),
                                            Ok((e, p4)) => {
                                                match F::spec_decode(data, p4, endian) {
                                                    Err(f) => Err(f),
                                                    Ok((f, p5)) => {
                                                        match G::spec_decode(data, p5, endian) {
                                                            Err(f) => Err(f),
                                                            Ok((g, p6)) => {
                                                                Ok(((a, b, c, d, e, f, g), p6))
                                                            },
                                                        }
                                                    },
                                                }
                                            },
                                        }
                                    },
                                }
                            },
                        }
                    },
                }
            },
        }
    }

    open spec fn spec_descriptor() -> Descriptor {
        Descriptor {
            is_zero_copy: A::spec_descriptor().is_zero_copy && B::spec_descriptor().is_zero_copy && C::spec_descriptor().is_zero_copy && D::spec_descriptor().is_zero_copy && E::spec_descriptor().is_zero_copy && F::spec_descriptor().is_zero_copy && G::spec_descriptor().is_zero_copy,
            size: size_sum(size_sum(size_sum(size_sum(size_sum(size_sum(size_sum(0usize, A::spec_descriptor().size), B::spec_descriptor().size), C::spec_descriptor().size), D::spec_descriptor().size), E::spec_descriptor().size), F::spec_descriptor().size), G::spec_descriptor().size),
            id: None,
            etype: None,
        }
    }

    fn descriptor() -> (d: Descriptor) {
        let is_zero_copy = A::descriptor().is_zero_copy && B::descriptor().is_zero_copy && C::descriptor().is_zero_copy && D::descriptor().is_zero_copy && E::descriptor().is_zero_copy && F::descriptor().is_zero_copy && G::descriptor().is_zero_copy;
        let mut size: usize = 0;
        size = size_sum_exec(size, A::descriptor().size);
        size = size_sum_exec(size, B::descriptor().size);
        size = size_sum_exec(size, C::descriptor().size);
        size = size_sum_exec(size, D::descriptor().size);
        size = size_sum_exec(size, E::descriptor().size);
        size = size_sum_exec(size, F::descriptor().size);
        size = size_sum_exec(size, G::descriptor().size);
        Descriptor { is_zero_copy, size, id: None, etype: None }
    }

    fn read_ds_endian(reader: &mut Cursor, endian: Endian) -> (r: Result<(A, B, C, D, E, F, G), Error>) {
        let a = A::read_ds_endian(reader, endian)?;
        let b = B::read_ds_endian(reader, endian)?;
        let c = C::read_ds_endian(reader, endian)?;
        let d = D::read_ds_endian(reader, endian)?;
        let e = E::read_ds_endian(reader, endian)?;
        let f = F::read_ds_endian(reader, endian)?;
        let g = G::read_ds_endian(reader, endian)?;
        Ok((a, b, c, d, e, f, g))
    }
}

impl<A: TigerReadable, B: TigerReadable, C: TigerReadable, D: TigerReadable, E: TigerReadable, F: TigerReadable, G: TigerReadable, H: TigerReadable> TigerReadable for (A, B, C, D, E, F, G, H) {
    type Model = (A::Model, B::Model, C::Model, D::Model, E::Model, F::Model, G::Model, H::Model);

    open spec fn model(&self) -> (A::Model, B::Model, C::Model, D::Model, E::Model, F::Model, G::Model, H::Model) {
        (self.0.model(), self.1.model(), self.2.model(), self.3.model(), self.4.model(), self.5.model(), self.6.model(), self.7.model())
    }

    open spec fn spec_decode(data: Seq<u8>, pos: int, endian: Endian) -> Result<((A::Model, B::Model, C::Model, D::Model, E::Model, F::Model, G::Model, H::Model), int), Fault> {
        match A::spec_decode(data, pos, endian) {
            Err(f) => Err(f),
            Ok((a, p0)) => {
                match B::spec_decode(data, p0, endian) {
                    Err(f) => Err(f),
                    Ok((b, p1)) => {
                        match C::spec_decode(data, p1, endian) {
                            Err(f) => Err(f),
                            Ok((c, p2)) => {
                                match D::spec_decode(data, p2, endian) {
                                    Err(f) => Err(f),
                                    Ok((d, p3)) => {
                                        match E::spec_decode(data, p3, endian) {
                                            Err(f) => Err(f),
                                            Ok((e, p4)) => {
                                                match F::spec_decode(data, p4, endian) {
                                                    Err(f) => Err(f),
                                                    Ok((f, p5)) => {
                                                        match G::spec_decode(data, p5, endian) {
                                                            Err(f) => Err(f),
                                                            Ok((g, p6)) => {
                                                                match H::spec_decode(data, p6, endian) {
                                                                    Err(f) => Err(f),
                                                                    Ok((h, p7)) => {
                                                                        Ok(((a, b, c, d, e, f, g, h), p7))
                                                                    },
                                                                }
                                                            },
                                                        }
                                                    },
                                                }
                                            },
                                        }
                                    },
                                }
                            },
                        }
                    },
                }
            },
        }
    }

    open spec fn spec_descriptor() -> Descriptor {
        Descriptor {
            is_zero_copy: A::spec_descriptor().is_zero_copy && B::spec_descriptor().is_zero_copy && C::spec_descriptor().is_zero_copy && D::spec_descriptor().is_zero_copy && E::spec_descriptor().is_zero_copy && F::spec_descriptor().is_zero_copy && G::spec_descriptor().is_zero_copy && H::spec_descriptor().is_zero_copy,
            size: size_sum(size_sum(size_sum(size_sum(size_sum(size_sum(size_sum(size_sum(0usize, A::spec_descriptor().size), B::spec_descriptor().size), C::spec_descriptor().size), D::spec_descriptor().size), E::spec_descriptor().size), F::spec_descriptor().size), G::spec_descriptor().size), H::spec_descriptor().size),
            id: None,
            etype: None,
        }
    }

    fn descriptor() -> (d: Descriptor) {
        let is_zero_copy = A::descriptor().is_zero_copy && B::descriptor().is_zero_copy && C::descriptor().is_zero_copy && D::descriptor().is_zero_copy && E::descriptor().is_zero_copy && F::descriptor().is_zero_copy && G::descriptor().is_zero_copy && H::descriptor().is_zero_copy;
        let mut size: usize = 0;
        size = size_sum_exec(size, A::descriptor().size);
        size = size_sum_exec(size, B::descriptor().size);
        size = size_sum_exec(size, C::descriptor().size);
        size = size_sum_exec(size, D::descriptor().size);
        size = size_sum_exec(size, E::descriptor().size);
        size = size_sum_exec(size, F::descriptor().size);
        size = size_sum_exec(size, G::descriptor().size);
        size = size_sum_exec(size, H::descriptor().size);
        Descriptor { is_zero_copy, size, id: None, etype: None }
    }

    fn read_ds_endian(reader: &mut Cursor, endian: Endian) -> (r: Result<(A, B, C, D, E, F, G, H), Error>) {
        let a = A::read_ds_endian(reader, endian)?;
        let b = B::read_ds_endian(reader, endian)?;
        let c = C::read_ds_endian(reader, endian)?;
        let d = D::read_ds_endian(reader, endian)?;
        let e = E::read_ds_endian(reader, endian)?;
        let f = F::read_ds_endian(reader, endian)?;
        let g = G::read_ds_endian(reader, endian)?;
        let h = H::read_ds_endian(reader, endian)?;
        Ok((a, b, c, d, e, f, g, h))
    }
}

} // verus!
