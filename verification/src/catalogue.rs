//! The spec resolver's catalogue: the function signatures a deployed
//! contract describes in its own metadata, keyed by function name.
//!
//! Catalogue order is the metadata order, which makes every listing of
//! valid names deterministic. Lookup is a case-sensitive exact match; a
//! miss is not an error at this layer, it is surfaced by the caller.

use vstd::prelude::*;

use crate::marshal::{FunctionSig, Param};
use crate::types::TypeTag;

verus! {

/// One metadata entry read back from a deployed contract: the function
/// name as decoded from the engine-internal string form (`Err` carries the
/// lossy fallback used when exact decoding fails, so catalogue building
/// never aborts on a single bad entry), the declared inputs, and the
/// return type.
pub struct SpecEntry {
    pub decoded_name: Result<String, String>,
    pub inputs: Vec<Param>,
    pub output: TypeTag,
}

/// The name under which an entry is catalogued: the exact decoding when it
/// succeeded, else the lossy fallback.
pub open spec fn entry_name(e: SpecEntry) -> Seq<char> {
    match e.decoded_name {
        Ok(s) => s@,
        Err(lossy) => lossy@,
    }
}

/// The function catalogue of one deployed contract, in metadata order.
pub struct Catalogue {
    pub funcs: Vec<FunctionSig>,
}

/// The catalogue's function names, in catalogue order.
pub open spec fn catalogue_names(funcs: Seq<FunctionSig>) -> Seq<Seq<char>> {
    funcs.map_values(|f: FunctionSig| f.name@)
}

/// The first signature carrying the given name, if any.
pub open spec fn lookup_sig(funcs: Seq<FunctionSig>, name: Seq<char>) -> Option<FunctionSig>
    decreases funcs.len(),
{
    if funcs.len() == 0 {
        None
    } else if funcs[0].name@ == name {
        Some(funcs[0])
    } else {
        lookup_sig(funcs.drop_first(), name)
    }
}

/// Build the catalogue out of the metadata entries, one signature per
/// entry, in metadata order; never fails, whatever the entries hold.
pub fn build_catalogue(entries: Vec<SpecEntry>) -> (r: Catalogue)
    ensures
        r.funcs@.len() == entries@.len(),
        forall|i: int|
            0 <= i < entries@.len() ==> (#[trigger] r.funcs@[i]).name@ == entry_name(entries@[i])
                && r.funcs@[i].inputs == entries@[i].inputs && r.funcs@[i].output
                == entries@[i].output,
{
    let ghost orig = entries@;
    let mut rest = entries;
    let mut funcs: Vec<FunctionSig> = Vec::new();
    while rest.len() > 0
        invariant
            funcs@.len() + rest@.len() == orig.len(),
            rest@ =~= orig.skip(funcs@.len() as int),
            forall|i: int|
                0 <= i < funcs@.len() ==> (#[trigger] funcs@[i]).name@ == entry_name(orig[i])
                    && funcs@[i].inputs == orig[i].inputs && funcs@[i].output == orig[i].output,
        decreases rest@.len(),
    {
        let ghost k = funcs@.len() as int;
        proof {
            assert(rest@[0] == orig[k]);
        }
        let e = rest.remove(0);
        let name = match e.decoded_name {
            Ok(s) => s,
            Err(lossy) => lossy,
        };
        funcs.push(FunctionSig { name, inputs: e.inputs, output: e.output });
        proof {
            assert(rest@ =~= orig.skip(funcs@.len() as int));
        }
    }
    Catalogue { funcs }
}

/// Case-sensitive exact-match lookup of one function signature by name.
pub fn lookup<'a>(cat: &'a Catalogue, name: &String) -> (r: Option<&'a FunctionSig>)
    ensures
        match r {
            Some(f) => lookup_sig(cat.funcs@, name@) == Some(*f),
            None => lookup_sig(cat.funcs@, name@) is None,
        },
{
    let n = cat.funcs.len();
    let mut i: usize = 0;
    proof {
        assert(cat.funcs@.skip(0) =~= cat.funcs@);
    }
    while i < n
        invariant
            0 <= i <= n,
            n == cat.funcs@.len(),
            lookup_sig(cat.funcs@, name@) == lookup_sig(cat.funcs@.skip(i as int), name@),
        decreases n - i,
    {
        let ghost rest = cat.funcs@.skip(i as int);
        proof {
            assert(rest[0] == cat.funcs@[i as int]);
        }
        if cat.funcs[i].name.eq(name) {
            proof {
                assert(lookup_sig(rest, name@) == Some(rest[0]));
            }
            return Some(&cat.funcs[i]);
        }
        proof {
            assert(rest[0].name@ != name@);
            assert(lookup_sig(rest, name@) == lookup_sig(rest.drop_first(), name@));
            assert(rest.drop_first() =~= cat.funcs@.skip(i as int + 1));
        }
        i = i + 1;
    }
    proof {
        assert(cat.funcs@.skip(n as int) =~= Seq::<FunctionSig>::empty());
    }
    None
}

/// The catalogue's function names in catalogue order: the deterministic
/// listing a lookup miss is reported with.
pub fn function_names(cat: &Catalogue) -> (r: Vec<String>)
    ensures
        r@.len() == cat.funcs@.len(),
        forall|i: int| 0 <= i < r@.len() ==> (#[trigger] r@[i])@ == catalogue_names(cat.funcs@)[i],
{
    let n = cat.funcs.len();
    let mut names: Vec<String> = Vec::new();
    let mut i: usize = 0;
    while i < n
        invariant
            0 <= i <= n,
            n == cat.funcs@.len(),
            names@.len() == i,
            forall|k: int|
                0 <= k < i ==> (#[trigger] names@[k])@ == catalogue_names(cat.funcs@)[k],
        decreases n - i,
    {
        names.push(cat.funcs[i].name.clone());
        i = i + 1;
    }
    names
}

/// A name the lookup finds is a catalogued name, and a lookup miss means
/// the name is none of the catalogued names: the listing handed back with
/// a miss is complete.
pub proof fn lemma_lookup_miss_means_absent(funcs: Seq<FunctionSig>, name: Seq<char>)
    requires
        lookup_sig(funcs, name) is None,
    ensures
        forall|i: int| 0 <= i < funcs.len() ==> catalogue_names(funcs)[i] != name,
    decreases funcs.len(),
{
    if funcs.len() > 0 {
        lemma_lookup_miss_means_absent(funcs.drop_first(), name);
        assert forall|i: int| 0 <= i < funcs.len() implies catalogue_names(funcs)[i] != name by {
            if i > 0 {
                assert(funcs.drop_first()[i - 1] == funcs[i]);
                assert(catalogue_names(funcs.drop_first())[i - 1] != name);
            }
        };
    }
}

} // verus!
