//! Well-formedness of the guest's arguments and environment variables.
use vstd::prelude::*;
use crate::error::WasiStateCreationError;
use crate::text::{has_byte, lossy_utf8, str_contains_byte, text_from_bytes_lossy, utf8};

verus! {

pub const NUL: u8 = 0;

pub const EQUALS: u8 = 61;

/// An argument may hold any character but nul.
pub open spec fn arg_ok(a: Seq<char>) -> bool {
    !has_byte(utf8(a), NUL)
}

/// A byte that a key may not hold.
pub open spec fn bad_key_byte(b: u8) -> bool {
    b == NUL || b == EQUALS
}

/// A key holds neither nul nor `=`.
pub open spec fn env_key_ok(k: Seq<char>) -> bool {
    forall|i: int| 0 <= i < utf8(k).len() ==> !bad_key_byte(#[trigger] utf8(k)[i])
}

/// A value holds no nul; it may hold `=`.
pub open spec fn env_value_ok(v: Seq<u8>) -> bool {
    !has_byte(v, NUL)
}

pub open spec fn env_pair_ok(p: (Seq<char>, Seq<u8>)) -> bool {
    env_key_ok(p.0) && env_value_ok(p.1)
}

/// `i` is the first position of `kb` that holds a byte a key may not hold.
pub open spec fn first_bad_key_pos(kb: Seq<u8>, i: int) -> bool {
    &&& 0 <= i < kb.len()
    &&& bad_key_byte(kb[i])
    &&& forall|j: int| 0 <= j < i ==> !bad_key_byte(#[trigger] kb[j])
}

/// The first byte of the key's encoding that a key may not hold.
pub open spec fn key_fault(k: Seq<char>) -> u8 {
    utf8(k)[choose|i: int| first_bad_key_pos(utf8(k), i)]
}

pub open spec fn key_nul_message(k: Seq<char>) -> Seq<char> {
    "found nul byte in env var key \""@ + k + "\" (key=value)"@
}

pub open spec fn key_equals_message(k: Seq<char>) -> Seq<char> {
    "found equal sign in env var key \""@ + k + "\" (key=value)"@
}

pub open spec fn value_nul_message(v: Seq<u8>) -> Seq<char> {
    "found nul byte in env var value \""@ + lossy_utf8(v) + "\" (key=value)"@
}

/// What is reported of a pair that is not well formed: the key is judged by
/// its first bad byte, and the value only when the key is sound.
pub open spec fn env_error_message(p: (Seq<char>, Seq<u8>)) -> Seq<char> {
    if !env_key_ok(p.0) {
        if key_fault(p.0) == NUL {
            key_nul_message(p.0)
        } else {
            key_equals_message(p.0)
        }
    } else {
        value_nul_message(p.1)
    }
}

/// `i` is the first argument that is not well formed.
pub open spec fn first_bad_arg(args: Seq<Seq<char>>, i: int) -> bool {
    &&& 0 <= i < args.len()
    &&& !arg_ok(args[i])
    &&& forall|j: int| 0 <= j < i ==> arg_ok(#[trigger] args[j])
}

/// `i` is the first pair that is not well formed.
pub open spec fn first_bad_env(envs: Seq<(Seq<char>, Seq<u8>)>, i: int) -> bool {
    &&& 0 <= i < envs.len()
    &&& !env_pair_ok(envs[i])
    &&& forall|j: int| 0 <= j < i ==> env_pair_ok(#[trigger] envs[j])
}

pub open spec fn args_view(args: Seq<String>) -> Seq<Seq<char>> {
    args.map_values(|a: String| a@)
}

pub open spec fn envs_view(envs: Seq<(String, Vec<u8>)>) -> Seq<(Seq<char>, Seq<u8>)> {
    envs.map_values(|p: (String, Vec<u8>)| (p.0@, p.1@))
}

/// Rejects the first argument that holds a nul byte, reporting it whole.
pub fn validate_args(args: &Vec<String>) -> (r: Result<(), WasiStateCreationError>)
    ensures
        r is Ok <==> forall|i: int| 0 <= i < args@.len() ==> arg_ok(#[trigger] args@[i]@),
        r matches Err(e) ==> exists|i: int|
            first_bad_arg(args_view(args@), i) && (e matches
                WasiStateCreationError::ArgumentContainsNulByte(a) && a@ == args@[i]@),
{
    let ghost av = args_view(args@);
    let mut i: usize = 0;
    while i < args.len()
        invariant
            0 <= i <= args@.len(),
            av == args_view(args@),
            forall|j: int| 0 <= j < i ==> arg_ok(#[trigger] args@[j]@),
        decreases args@.len() - i,
    {
        if str_contains_byte(args[i].as_str(), NUL) {
            assert forall|j: int| 0 <= j < i implies arg_ok(#[trigger] av[j]) by {
                assert(av[j] == args@[j]@);
            }
            assert(first_bad_arg(av, i as int));
            return Err(WasiStateCreationError::ArgumentContainsNulByte(args[i].clone()));
        }
        i = i + 1;
    }
    Ok(())
}

/// Checks one pair and builds the message that a bad one is reported with.
pub fn check_env_pair(key: &str, value: &[u8]) -> (r: Result<(), String>)
    ensures
        r is Ok <==> env_pair_ok((key@, value@)),
        r matches Err(m) ==> m@ == env_error_message((key@, value@)),
{
    let kb = key.as_bytes();
    let ghost kv = utf8(key@);
    assert(kb@ == kv);
    let mut i: usize = 0;
    while i < kb.len()
        invariant
            0 <= i <= kb@.len(),
            kb@ == kv,
            kv == utf8(key@),
            forall|j: int| 0 <= j < i ==> !bad_key_byte(#[trigger] kv[j]),
        decreases kb@.len() - i,
    {
        let b = kb[i];
        if b == NUL || b == EQUALS {
            proof {
                assert(first_bad_key_pos(kv, i as int));
                let c = choose|c: int| first_bad_key_pos(kv, c);
                if c < i {
                    assert(!bad_key_byte(kv[c]));
                } else if c > i {
                    assert(!bad_key_byte(kv[i as int]));
                }
                assert(c == i);
                assert(!env_key_ok(key@));
            }
            let mut msg = if b == NUL {
                String::from_str("found nul byte in env var key \"")
            } else {
                String::from_str("found equal sign in env var key \"")
            };
            msg.append(key);
            msg.append("\" (key=value)");
            return Err(msg);
        }
        i = i + 1;
    }
    assert(env_key_ok(key@));
    if crate::text::contains_byte(value, NUL) {
        let mut msg = String::from_str("found nul byte in env var value \"");
        let text = text_from_bytes_lossy(value);
        msg.append(text.as_str());
        msg.append("\" (key=value)");
        return Err(msg);
    }
    Ok(())
}

/// Rejects the first pair whose key holds nul or `=`, or whose value holds nul.
pub fn validate_envs(envs: &Vec<(String, Vec<u8>)>) -> (r: Result<(), WasiStateCreationError>)
    ensures
        r is Ok <==> forall|i: int|
            0 <= i < envs@.len() ==> env_pair_ok(#[trigger] envs_view(envs@)[i]),
        r matches Err(e) ==> exists|i: int|
            first_bad_env(envs_view(envs@), i) && (e matches
                WasiStateCreationError::EnvironmentVariableFormatError(m) && m@
                == env_error_message(envs_view(envs@)[i])),
{
    let ghost ev = envs_view(envs@);
    let mut i: usize = 0;
    while i < envs.len()
        invariant
            0 <= i <= envs@.len(),
            ev == envs_view(envs@),
            forall|j: int| 0 <= j < i ==> env_pair_ok(#[trigger] ev[j]),
        decreases envs@.len() - i,
    {
        let pair = &envs[i];
        assert(ev[i as int] == (pair.0@, pair.1@));
        match check_env_pair(pair.0.as_str(), pair.1.as_slice()) {
            Ok(()) => {},
            Err(m) => {
                assert(first_bad_env(ev, i as int));
                return Err(WasiStateCreationError::EnvironmentVariableFormatError(m));
            },
        }
        i = i + 1;
    }
    Ok(())
}

} // verus!
