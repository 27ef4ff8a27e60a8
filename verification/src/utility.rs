//! Small helpers around queried device data: decoding zero-terminated name
//! arrays into text, and checking that every required name is among the
//! available ones.

use vstd::prelude::*;
use vstd::std_specs::cmp::PartialEqSpec;
use vstd::utf8::{decode_utf8, valid_utf8};

verus! {

/// Why a queried name array could not be turned into text.
#[derive(Clone, Copy, PartialEq, Eq, Structural, Debug)]
pub enum StringDecodeError {
    InvalidUtf8,
}

/// The bytes of a zero-terminated name array: everything before the first
/// zero, reinterpreted as unsigned bytes.
pub open spec fn spec_c_bytes(arr: Seq<i8>) -> Seq<u8>
    decreases arr.len(),
{
    if arr.len() == 0 || arr.first() == 0 {
        Seq::empty()
    } else {
        seq![arr.first() as u8] + spec_c_bytes(arr.drop_first())
    }
}

/// A zero-free prefix up to the first zero (or the end) is exactly what
/// `spec_c_bytes` collects.
proof fn lemma_c_bytes_is_prefix(arr: Seq<i8>, i: int)
    requires
        0 <= i <= arr.len(),
        forall|j: int| 0 <= j < i ==> arr[j] != 0,
        i == arr.len() || arr[i] == 0,
    ensures
        spec_c_bytes(arr) == Seq::new(i as nat, |k: int| arr[k] as u8),
    decreases i,
{
    if i == 0 {
        assert(spec_c_bytes(arr) =~= Seq::new(0, |k: int| arr[k] as u8));
    } else {
        let rest = arr.drop_first();
        lemma_c_bytes_is_prefix(rest, i - 1);
        assert(spec_c_bytes(arr) =~= Seq::new(i as nat, |k: int| arr[k] as u8));
    }
}

/// Relies on `String::from_utf8` of std: it succeeds exactly on valid UTF-8
/// input and returns the decoded text.
#[verifier::external_body]
fn string_from_utf8(bytes: Vec<u8>) -> (r: Option<String>)
    ensures
        r is Some <==> valid_utf8(bytes@),
        r matches Some(s) ==> s@ == decode_utf8(bytes@),
{
    match String::from_utf8(bytes) {
        Ok(s) => Some(s),
        Err(_) => None,
    }
}

/// Decodes a zero-terminated signed-byte name array (as device and layer
/// names are reported) into text: the bytes before the first zero must form
/// valid UTF-8.
pub fn i8_array_to_string(arr: &[i8]) -> (r: Result<String, StringDecodeError>)
    ensures
        r is Ok <==> valid_utf8(spec_c_bytes(arr@)),
        r matches Ok(s) ==> s@ == decode_utf8(spec_c_bytes(arr@)),
        r is Err ==> r == Err::<String, StringDecodeError>(StringDecodeError::InvalidUtf8),
{
    let mut bytes: Vec<u8> = Vec::new();
    let mut i: usize = 0;
    while i < arr.len() && arr[i] != 0
        invariant
            i <= arr@.len(),
            forall|j: int| 0 <= j < i ==> arr@[j] != 0,
            bytes@ == Seq::new(i as nat, |k: int| arr@[k] as u8),
        decreases arr@.len() - i,
    {
        bytes.push(arr[i] as u8);
        proof {
            assert(bytes@ =~= Seq::new((i + 1) as nat, |k: int| arr@[k] as u8));
        }
        i = i + 1;
    }
    proof {
        lemma_c_bytes_is_prefix(arr@, i as int);
    }
    match string_from_utf8(bytes) {
        Some(s) => Ok(s),
        None => Err(StringDecodeError::InvalidUtf8),
    }
}

/// Whether `slice` holds an element whose own equality accepts `x`.
pub open spec fn spec_found_in<T: PartialEq>(slice: Seq<T>, x: T) -> bool {
    exists|i: int| 0 <= i < slice.len() && (#[trigger] slice[i]).eq_spec(&x)
}

/// Whether the first `n` elements of `other` are all found in `slice`.
pub open spec fn spec_all_found<T: PartialEq>(slice: Seq<T>, other: Seq<T>, n: int) -> bool {
    forall|j: int| 0 <= j < n ==> spec_found_in(slice, #[trigger] other[j])
}

/// Whether the slice holds an element equal to `x`.
fn slice_contains<T: PartialEq>(slice: &[T], x: &T) -> (r: bool)
    ensures
        T::obeys_eq_spec() ==> (r <==> spec_found_in(slice@, *x)),
{
    let mut i: usize = 0;
    while i < slice.len()
        invariant
            i <= slice@.len(),
            T::obeys_eq_spec() ==> forall|j: int|
                0 <= j < i ==> !(#[trigger] slice@[j]).eq_spec(x),
        decreases slice@.len() - i,
    {
        if slice[i] == *x {
            return true;
        }
        i = i + 1;
    }
    false
}

/// Checks that every element of `other` occurs in `slice`; the first one
/// that does not is handed back. Equality is the element type's own.
pub fn contains_all<'a, T: PartialEq>(slice: &[T], other: &'a [T]) -> (r: Result<(), &'a T>)
    ensures
        T::obeys_eq_spec() ==> match r {
            Ok(_) => spec_all_found(slice@, other@, other@.len() as int),
            Err(missing) => exists|j: int|
                {
                    &&& 0 <= j < other@.len()
                    &&& *missing == #[trigger] other@[j]
                    &&& !spec_found_in(slice@, other@[j])
                    &&& spec_all_found(slice@, other@, j)
                },
        },
{
    let mut j: usize = 0;
    while j < other.len()
        invariant
            j <= other@.len(),
            T::obeys_eq_spec() ==> spec_all_found(slice@, other@, j as int),
        decreases other@.len() - j,
    {
        let found = slice_contains(slice, &other[j]);
        if !found {
            return Err(&other[j]);
        }
        j = j + 1;
    }
    Ok(())
}

} // verus!
