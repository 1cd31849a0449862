//! The descriptor language: an immutable, structurally compared tree value
//! that serves both as a resource specification and as its own cache key.

use vstd::prelude::*;

verus! {

/// Mathematical model of a descriptor value.
///
/// Floating-point leaves carry the bit pattern of a 32-bit IEEE 754 value;
/// the core never performs floating-point arithmetic, it only moves such
/// values around, so the bit pattern is the right structural identity.
#[verifier::ext_equal]
pub enum PonV {
    Str(Seq<char>),
    Integer(i64),
    Float(u32),
    Boolean(bool),
    Array(Seq<PonV>),
    Object(Seq<(Seq<char>, PonV)>),
    Typed { tag: Seq<char>, data: Box<PonV> },
}

/// A descriptor value: a typed tag + payload, arrays, ordered objects with
/// string keys, and primitive leaves. Immutable once constructed; two values
/// are interchangeable exactly when they are structurally equal.
pub enum Pon {
    Str(String),
    Integer(i64),
    Float(u32),
    Boolean(bool),
    Array(Vec<Pon>),
    Object(Vec<(String, Pon)>),
    Typed { tag: String, data: Box<Pon> },
}

/// Model of an array payload: the models of its elements, in order.
pub open spec fn elems_view(v: Seq<Pon>) -> Seq<PonV>
    decreases v,
{
    Seq::new(
        v.len(),
        |i: int|
            if 0 <= i < v.len() {
                pon_view(v[i])
            } else {
                PonV::Boolean(false)
            },
    )
}

/// Model of an object payload: (key, value model) pairs, in order.
pub open spec fn fields_view(v: Seq<(String, Pon)>) -> Seq<(Seq<char>, PonV)>
    decreases v,
{
    Seq::new(
        v.len(),
        |i: int|
            if 0 <= i < v.len() {
                (v[i].0@, pon_view(v[i].1))
            } else {
                (Seq::empty(), PonV::Boolean(false))
            },
    )
}

/// Model of a descriptor value.
pub open spec fn pon_view(p: Pon) -> PonV
    decreases p,
{
    match p {
        Pon::Str(s) => PonV::Str(s@),
        Pon::Integer(i) => PonV::Integer(i),
        Pon::Float(b) => PonV::Float(b),
        Pon::Boolean(b) => PonV::Boolean(b),
        Pon::Array(v) => PonV::Array(elems_view(v@)),
        Pon::Object(v) => PonV::Object(fields_view(v@)),
        Pon::Typed { tag, data } => PonV::Typed {
            tag: tag@,
            data: Box::new(pon_view(*data)),
        },
    }
}

impl View for Pon {
    type V = PonV;

    open spec fn view(&self) -> PonV {
        pon_view(*self)
    }
}

/// Character-for-character string comparison, usable on borrowed slices.
pub fn str_eq(a: &str, b: &str) -> (r: bool)
    ensures
        r == (a@ == b@),
{
    let an = a.unicode_len();
    let bn = b.unicode_len();
    if an != bn {
        return false;
    }
    let mut i: usize = 0;
    while i < an
        invariant
            an == a@.len(),
            an == b@.len(),
            i <= an,
            forall|j: int| 0 <= j < i ==> a@[j] == b@[j],
        decreases an - i,
    {
        if a.get_char(i) != b.get_char(i) {
            return false;
        }
        i = i + 1;
    }
    proof {
        assert(a@ =~= b@);
    }
    true
}

/// Structural equality of descriptor values: tag, fields, elements,
/// recursively. This is the equality the caches key on.
#[verifier::loop_isolation(false)]
pub fn pon_eq(a: &Pon, b: &Pon) -> (r: bool)
    ensures
        r == (a@ == b@),
    decreases a,
{
    match (a, b) {
        (Pon::Str(x), Pon::Str(y)) => str_eq(x.as_str(), y.as_str()),
        (Pon::Integer(x), Pon::Integer(y)) => x == y,
        (Pon::Float(x), Pon::Float(y)) => x == y,
        (Pon::Boolean(x), Pon::Boolean(y)) => x == y,
        (Pon::Array(v), Pon::Array(w)) => {
            if v.len() != w.len() {
                proof {
                    assert(elems_view(v@).len() != elems_view(w@).len());
                }
                return false;
            }
            let n = v.len();
            let mut i: usize = 0;
            while i < n
                invariant
                    n == v@.len(),
                    n == w@.len(),
                    i <= n,
                    forall|j: int| 0 <= j < i ==> elems_view(v@)[j] == elems_view(w@)[j],
                decreases n - i,
            {
                proof {
                    assert(*a == Pon::Array(*v));
                    assert(decreases_to!(*a => a->Array_0));
                    assert(decreases_to!(a->Array_0 => a->Array_0@));
                    assert(decreases_to!(a->Array_0@ => a->Array_0@[i as int]));
                    assert(a->Array_0@[i as int] == v@[i as int]);
                }
                if !pon_eq(&v[i], &w[i]) {
                    proof {
                        assert(elems_view(v@)[i as int] != elems_view(w@)[i as int]);
                    }
                    return false;
                }
                i = i + 1;
            }
            proof {
                assert(elems_view(v@) =~= elems_view(w@));
            }
            true
        },
        (Pon::Object(v), Pon::Object(w)) => {
            if v.len() != w.len() {
                proof {
                    assert(fields_view(v@).len() != fields_view(w@).len());
                }
                return false;
            }
            let n = v.len();
            let mut i: usize = 0;
            while i < n
                invariant
                    n == v@.len(),
                    n == w@.len(),
                    i <= n,
                    forall|j: int| 0 <= j < i ==> fields_view(v@)[j] == fields_view(w@)[j],
                decreases n - i,
            {
                if !str_eq(v[i].0.as_str(), w[i].0.as_str()) {
                    proof {
                        assert(fields_view(v@)[i as int] != fields_view(w@)[i as int]);
                    }
                    return false;
                }
                proof {
                    assert(*a == Pon::Object(*v));
                    assert(decreases_to!(*a => a->Object_0));
                    assert(decreases_to!(a->Object_0 => a->Object_0@));
                    assert(decreases_to!(a->Object_0@ => a->Object_0@[i as int]));
                    assert(decreases_to!(a->Object_0@[i as int] => a->Object_0@[i as int].1));
                    assert(a->Object_0@[i as int].1 == v@[i as int].1);
                }
                if !pon_eq(&v[i].1, &w[i].1) {
                    proof {
                        assert(fields_view(v@)[i as int] != fields_view(w@)[i as int]);
                    }
                    return false;
                }
                i = i + 1;
            }
            proof {
                assert(fields_view(v@) =~= fields_view(w@));
            }
            true
        },
        (Pon::Typed { tag: na, data: da }, Pon::Typed { tag: nb, data: db }) => {
            if !str_eq(na.as_str(), nb.as_str()) {
                return false;
            }
            pon_eq(da, db)
        },
        _ => {
            false
        },
    }
}

/// What a lookup of `name` in an object's fields finds: the first field with
/// that key, if any.
pub open spec fn field_lookup(fields: Seq<(Seq<char>, PonV)>, name: Seq<char>) -> Option<PonV>
    decreases fields.len(),
{
    if fields.len() == 0 {
        None
    } else if fields[0].0 == name {
        Some(fields[0].1)
    } else {
        field_lookup(fields.drop_first(), name)
    }
}

proof fn lemma_field_lookup_found(fields: Seq<(Seq<char>, PonV)>, name: Seq<char>, i: int)
    requires
        0 <= i < fields.len(),
        fields[i].0 == name,
        forall|j: int| 0 <= j < i ==> fields[j].0 != name,
    ensures
        field_lookup(fields, name) == Some(fields[i].1),
    decreases i,
{
    if i > 0 {
        lemma_field_lookup_found(fields.drop_first(), name, i - 1);
    }
}

proof fn lemma_field_lookup_missing(fields: Seq<(Seq<char>, PonV)>, name: Seq<char>)
    requires
        forall|j: int| 0 <= j < fields.len() ==> fields[j].0 != name,
    ensures
        field_lookup(fields, name) is None,
    decreases fields.len(),
{
    if fields.len() > 0 {
        lemma_field_lookup_missing(fields.drop_first(), name);
    }
}

/// Reading a required field of an object-shaped payload: a value that is not
/// an object is malformed, an object without the field names the missing
/// field.
pub open spec fn field_of(data: PonV, name: Seq<char>) -> Result<PonV, crate::error::CompileErrorV> {
    match data {
        PonV::Object(fs) => match field_lookup(fs, name) {
            Some(v) => Ok(v),
            None => Err(crate::error::CompileErrorV::MissingField(name)),
        },
        _ => Err(crate::error::CompileErrorV::MalformedNestedValue),
    }
}

/// Reads the field `name` of an object-shaped descriptor payload.
#[verifier::loop_isolation(false)]
pub fn get_field<'a>(data: &'a Pon, name: &str) -> (r: Result<
    &'a Pon,
    crate::error::CompileError,
>)
    ensures
        match r {
            Ok(p) => field_of(data@, name@) == Ok::<PonV, crate::error::CompileErrorV>(p@),
            Err(e) => field_of(data@, name@) == Err::<PonV, crate::error::CompileErrorV>(e@),
        },
{
    match data {
        Pon::Object(v) => {
            let n = v.len();
            let mut i: usize = 0;
            while i < n
                invariant
                    n == v@.len(),
                    i <= n,
                    forall|j: int| 0 <= j < i ==> fields_view(v@)[j].0 != name@,
                decreases n - i,
            {
                if str_eq(v[i].0.as_str(), name) {
                    proof {
                        lemma_field_lookup_found(fields_view(v@), name@, i as int);
                    }
                    return Ok(&v[i].1);
                }
                i = i + 1;
            }
            proof {
                lemma_field_lookup_missing(fields_view(v@), name@);
            }
            Err(crate::error::CompileError::MissingField(name.to_owned()))
        },
        _ => Err(crate::error::CompileError::MalformedNestedValue),
    }
}

/// A deep copy. Descriptor values are shared by value: the copy has the same
/// model, so it is interchangeable with the original everywhere.
#[verifier::loop_isolation(false)]
pub fn deep_clone_pon(p: &Pon) -> (r: Pon)
    ensures
        r@ == p@,
    decreases p,
{
    match p {
        Pon::Str(s) => Pon::Str(s.clone()),
        Pon::Integer(i) => Pon::Integer(*i),
        Pon::Float(b) => Pon::Float(*b),
        Pon::Boolean(b) => Pon::Boolean(*b),
        Pon::Array(v) => {
            let n = v.len();
            let mut out: Vec<Pon> = Vec::new();
            let mut i: usize = 0;
            while i < n
                invariant
                    n == v@.len(),
                    i <= n,
                    out@.len() == i,
                    forall|j: int| 0 <= j < i ==> out@[j]@ == elems_view(v@)[j],
                decreases n - i,
            {
                proof {
                    assert(*p == Pon::Array(*v));
                    assert(decreases_to!(*p => p->Array_0));
                    assert(decreases_to!(p->Array_0 => p->Array_0@));
                    assert(decreases_to!(p->Array_0@ => p->Array_0@[i as int]));
                    assert(p->Array_0@[i as int] == v@[i as int]);
                }
                out.push(deep_clone_pon(&v[i]));
                i = i + 1;
            }
            proof {
                assert(elems_view(out@) =~= elems_view(v@));
            }
            Pon::Array(out)
        },
        Pon::Object(v) => {
            let n = v.len();
            let mut out: Vec<(String, Pon)> = Vec::new();
            let mut i: usize = 0;
            while i < n
                invariant
                    n == v@.len(),
                    i <= n,
                    out@.len() == i,
                    forall|j: int| 0 <= j < i ==> fields_view(out@)[j] == fields_view(v@)[j],
                decreases n - i,
            {
                proof {
                    assert(*p == Pon::Object(*v));
                    assert(decreases_to!(*p => p->Object_0));
                    assert(decreases_to!(p->Object_0 => p->Object_0@));
                    assert(decreases_to!(p->Object_0@ => p->Object_0@[i as int]));
                    assert(decreases_to!(p->Object_0@[i as int] => p->Object_0@[i as int].1));
                    assert(p->Object_0@[i as int].1 == v@[i as int].1);
                }
                let key = v[i].0.clone();
                let val = deep_clone_pon(&v[i].1);
                out.push((key, val));
                i = i + 1;
            }
            proof {
                assert(fields_view(out@) =~= fields_view(v@));
            }
            Pon::Object(out)
        },
        Pon::Typed { tag, data } => Pon::Typed {
            tag: tag.clone(),
            data: Box::new(deep_clone_pon(data)),
        },
    }
}

} // verus!
