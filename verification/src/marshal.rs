//! Argument marshalling: checking that the request supplies a raw string for
//! every declared parameter, and converting each string into the typed value
//! the engine expects, in the signature's declared order.
//!
//! The completeness check collects every missing parameter before failing,
//! so the user-facing message can enumerate all gaps at once; value
//! conversion fails fast on the first unparsable value.

use vstd::prelude::*;

use crate::types::{marshal_fails, marshal_value, marshals_to, TypeTag, TypedValue};

verus! {

/// One declared parameter of a contract function: a name and a type tag.
#[derive(Debug)]
pub struct Param {
    pub name: String,
    pub ty: TypeTag,
}

/// A function signature recovered from a deployed contract's own metadata:
/// a name, an ordered list of named, typed parameters, and a return type.
pub struct FunctionSig {
    pub name: String,
    pub inputs: Vec<Param>,
    pub output: TypeTag,
}

/// The raw query parameters of a request, in the order they arrived.
pub struct QueryParams {
    pub pairs: Vec<(String, String)>,
}

/// The raw string supplied for a key, if any: the first pair with that key
/// decides.
pub open spec fn lookup_raw(pairs: Seq<(String, String)>, key: Seq<char>) -> Option<Seq<char>>
    decreases pairs.len(),
{
    if pairs.len() == 0 {
        None
    } else if pairs[0].0@ == key {
        Some(pairs[0].1@)
    } else {
        lookup_raw(pairs.drop_first(), key)
    }
}

/// Find the raw string supplied for `key`, cloned out of the pair list.
pub fn get_raw(params: &QueryParams, key: &String) -> (r: Option<String>)
    ensures
        match r {
            Some(v) => lookup_raw(params.pairs@, key@) == Some(v@),
            None => lookup_raw(params.pairs@, key@) is None,
        },
{
    let n = params.pairs.len();
    let mut i: usize = 0;
    proof {
        assert(params.pairs@.skip(0) =~= params.pairs@);
    }
    while i < n
        invariant
            0 <= i <= n,
            n == params.pairs@.len(),
            lookup_raw(params.pairs@, key@) == lookup_raw(params.pairs@.skip(i as int), key@),
        decreases n - i,
    {
        let ghost rest = params.pairs@.skip(i as int);
        proof {
            assert(rest.len() == n - i);
            assert(rest[0] == params.pairs@[i as int]);
        }
        if params.pairs[i].0.eq(key) {
            proof {
                assert(lookup_raw(rest, key@) == Some(rest[0].1@));
            }
            return Some(params.pairs[i].1.clone());
        }
        proof {
            assert(rest[0].0@ != key@);
            assert(lookup_raw(rest, key@) == lookup_raw(rest.drop_first(), key@));
            assert(rest.drop_first() =~= params.pairs@.skip(i as int + 1));
        }
        i = i + 1;
    }
    proof {
        assert(params.pairs@.skip(n as int) =~= Seq::<(String, String)>::empty());
    }
    None
}

/// What a parameter is at specification level: its name and its type tag.
pub open spec fn param_entry(p: Param) -> (Seq<char>, TypeTag) {
    (p.name@, p.ty)
}

pub open spec fn params_view(ps: Seq<Param>) -> Seq<(Seq<char>, TypeTag)> {
    ps.map_values(|p: Param| param_entry(p))
}

/// The declared parameters for which the request supplies no raw string, in
/// declared order, each with its declared type.
pub open spec fn missing_params(inputs: Seq<Param>, pairs: Seq<(String, String)>) -> Seq<
    (Seq<char>, TypeTag),
>
    decreases inputs.len(),
{
    if inputs.len() == 0 {
        Seq::empty()
    } else {
        let rest = missing_params(inputs.drop_last(), pairs);
        if lookup_raw(pairs, inputs.last().name@) is None {
            rest.push(param_entry(inputs.last()))
        } else {
            rest
        }
    }
}

/// Why a marshal call failed.
#[derive(Debug)]
pub enum MarshalError {
    /// Every declared parameter without a supplied value, with its declared
    /// type, in declared order.
    MissingParameters(Vec<Param>),
    /// The first declared parameter whose supplied value does not parse
    /// under its type tag.
    InvalidValue { name: String, expected: TypeTag, raw: String },
}

/// The supplied value for parameter `i` of `inputs` parses under its tag.
pub open spec fn param_converts(inputs: Seq<Param>, pairs: Seq<(String, String)>, i: int) -> bool {
    lookup_raw(pairs, inputs[i].name@) matches Some(raw) && !marshal_fails(inputs[i].ty, raw)
}

/// Value `v` is the marshalling of the raw string supplied for parameter `i`
/// of `inputs`, under that parameter's tag.
pub open spec fn arg_ok(
    inputs: Seq<Param>,
    pairs: Seq<(String, String)>,
    i: int,
    v: TypedValue,
) -> bool {
    match lookup_raw(pairs, inputs[i].name@) {
        Some(raw) => marshals_to(inputs[i].ty, raw, v),
        None => false,
    }
}

/// A fully marshalled argument list: one value per declared parameter, in
/// declared order, each converted from its supplied raw string.
pub open spec fn marshalled_args(
    inputs: Seq<Param>,
    pairs: Seq<(String, String)>,
    vals: Seq<TypedValue>,
) -> bool {
    &&& vals.len() == inputs.len()
    &&& forall|i: int| 0 <= i < inputs.len() ==> #[trigger] arg_ok(inputs, pairs, i, vals[i])
}

proof fn lemma_missing_params_take_succ(inputs: Seq<Param>, pairs: Seq<(String, String)>, j: int)
    requires
        0 <= j < inputs.len(),
    ensures
        missing_params(inputs.take(j + 1), pairs) == if lookup_raw(pairs, inputs[j].name@)
            is None {
            missing_params(inputs.take(j), pairs).push(param_entry(inputs[j]))
        } else {
            missing_params(inputs.take(j), pairs)
        },
{
    assert(inputs.take(j + 1).drop_last() =~= inputs.take(j));
    assert(inputs.take(j + 1).last() == inputs[j]);
}

/// Marshal the arguments of one invocation: first require a supplied value
/// for every declared parameter, collecting every gap at once; then convert
/// the values in declared order, stopping at the first one that is rejected.
pub fn marshal(sig: &FunctionSig, params: &QueryParams) -> (r: Result<
    Vec<TypedValue>,
    MarshalError,
>)
    ensures
        match r {
            Ok(vals) => missing_params(sig.inputs@, params.pairs@).len() == 0 && marshalled_args(
                sig.inputs@,
                params.pairs@,
                vals@,
            ),
            Err(e) => match e {
                MarshalError::MissingParameters(list) => params_view(list@) == missing_params(
                    sig.inputs@,
                    params.pairs@,
                ) && list@.len() > 0,
                MarshalError::InvalidValue { name, expected, raw } => {
                    &&& missing_params(sig.inputs@, params.pairs@).len() == 0
                    &&& exists|j: int|
                        {
                            &&& 0 <= j < sig.inputs@.len()
                            &&& !param_converts(sig.inputs@, params.pairs@, j)
                            &&& forall|k: int|
                                0 <= k < j ==> #[trigger] param_converts(
                                    sig.inputs@,
                                    params.pairs@,
                                    k,
                                )
                            &&& name@ == sig.inputs@[j].name@
                            &&& expected == sig.inputs@[j].ty
                            &&& lookup_raw(params.pairs@, sig.inputs@[j].name@) == Some(raw@)
                        }
                },
            },
        },
{
    let n = sig.inputs.len();
    let mut missing: Vec<Param> = Vec::new();
    let mut i: usize = 0;
    while i < n
        invariant
            0 <= i <= n,
            n == sig.inputs@.len(),
            params_view(missing@) == missing_params(sig.inputs@.take(i as int), params.pairs@),
        decreases n - i,
    {
        let p = &sig.inputs[i];
        let found = get_raw(params, &p.name);
        proof {
            lemma_missing_params_take_succ(sig.inputs@, params.pairs@, i as int);
        }
        if found.is_none() {
            missing.push(Param { name: p.name.clone(), ty: p.ty });
            proof {
                assert(params_view(missing@) =~= missing_params(
                    sig.inputs@.take(i as int),
                    params.pairs@,
                ).push(param_entry(sig.inputs@[i as int])));
            }
        }
        i = i + 1;
    }
    proof {
        assert(sig.inputs@.take(n as int) =~= sig.inputs@);
    }
    if missing.len() > 0 {
        return Err(MarshalError::MissingParameters(missing));
    }
    let mut vals: Vec<TypedValue> = Vec::new();
    let mut i: usize = 0;
    while i < n
        invariant
            0 <= i <= n,
            n == sig.inputs@.len(),
            missing_params(sig.inputs@, params.pairs@).len() == 0,
            vals@.len() == i,
            forall|k: int| 0 <= k < i ==> #[trigger] arg_ok(sig.inputs@, params.pairs@, k, vals@[k]),
            forall|k: int| 0 <= k < i ==> #[trigger] param_converts(sig.inputs@, params.pairs@, k),
        decreases n - i,
    {
        let p = &sig.inputs[i];
        let found = get_raw(params, &p.name);
        match found {
            Some(raw) => {
                match marshal_value(p.ty, &raw) {
                    Some(v) => {
                        let ghost gv = v;
                        let ghost prev = vals@;
                        proof {
                            assert(lookup_raw(params.pairs@, sig.inputs@[i as int].name@) == Some(
                                raw@,
                            ));
                            assert(marshals_to(sig.inputs@[i as int].ty, raw@, gv));
                            assert(param_converts(sig.inputs@, params.pairs@, i as int));
                        }
                        vals.push(v);
                        proof {
                            assert(vals@ == prev.push(gv));
                            assert(arg_ok(sig.inputs@, params.pairs@, i as int, gv));
                            assert(vals@[i as int] == gv);
                            assert forall|k: int| 0 <= k < i + 1 implies #[trigger] arg_ok(
                                sig.inputs@,
                                params.pairs@,
                                k,
                                vals@[k],
                            ) by {
                                if k < i {
                                    assert(vals@[k] == prev[k]);
                                    assert(arg_ok(sig.inputs@, params.pairs@, k, prev[k]));
                                }
                            };
                        }
                    },
                    None => {
                        proof {
                            assert(lookup_raw(params.pairs@, sig.inputs@[i as int].name@) == Some(
                                raw@,
                            ));
                            assert(marshal_fails(sig.inputs@[i as int].ty, raw@));
                            assert(!param_converts(sig.inputs@, params.pairs@, i as int));
                        }
                        return Err(MarshalError::InvalidValue {
                            name: p.name.clone(),
                            expected: p.ty,
                            raw,
                        });
                    },
                }
            },
            None => {
                proof {
                    lemma_missing_has_unsupplied(sig.inputs@, params.pairs@, i as int);
                    assert(false);
                }
                // unreachable: the completeness check found no missing
                // parameter, so every declared name has a supplied value
                return Err(MarshalError::MissingParameters(Vec::new()));
            },
        }
        i = i + 1;
    }
    Ok(vals)
}

/// If some declared parameter has no supplied value, the missing list is
/// not empty.
proof fn lemma_missing_has_unsupplied(inputs: Seq<Param>, pairs: Seq<(String, String)>, j: int)
    requires
        0 <= j < inputs.len(),
        lookup_raw(pairs, inputs[j].name@) is None,
    ensures
        missing_params(inputs, pairs).len() > 0,
    decreases inputs.len(),
{
    if inputs.len() > 0 {
        if j == inputs.len() - 1 {
            assert(inputs.last() == inputs[j]);
        } else {
            assert(inputs.drop_last()[j] == inputs[j]);
            lemma_missing_has_unsupplied(inputs.drop_last(), pairs, j);
        }
    }
}

} // verus!
