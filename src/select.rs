//! Choice of the key whose secret parameters are converted: the primary key,
//! or the key (primary or subkey) with a given identifier.
use vstd::prelude::*;
use crate::params::SecretParamBundle;

verus! {

/// One key of a document: its identifier, as lowercase hexadecimal, and its
/// secret parameters.
#[derive(Clone, Debug)]
pub struct SecretKeyEntry {
    pub key_id: String,
    pub params: SecretParamBundle,
}

#[derive(Clone, Copy, Debug, PartialEq, Eq)]
pub enum SelectError {
    /// The requested identifier names neither the primary key nor a subkey.
    KeyIdNotFound,
}

/// What `str::to_lowercase` makes of a string.
pub uninterp spec fn lower_of(s: Seq<char>) -> Seq<char>;

/// Relies on `str::to_lowercase`: the result depends on the characters alone.
#[verifier::external_body]
fn lowercase(s: &str) -> (r: String)
    ensures
        r@ == lower_of(s@),
{
    s.to_lowercase()
}

/// Index `i` is the first subkey whose identifier is `id`.
pub open spec fn is_first_match(subkeys: Seq<SecretKeyEntry>, id: Seq<char>, i: int) -> bool {
    &&& 0 <= i < subkeys.len()
    &&& subkeys[i].key_id@ == id
    &&& forall|j: int| 0 <= j < i ==> #[trigger] subkeys[j].key_id@ != id
}

/// The parameters chosen for the (already lowercased) identifier `target`.
pub open spec fn selection(
    target: Option<Seq<char>>,
    primary: SecretKeyEntry,
    subkeys: Seq<SecretKeyEntry>,
) -> Result<SecretParamBundle, SelectError> {
    match target {
        None => Ok(primary.params),
        Some(id) => if primary.key_id@ == id {
            Ok(primary.params)
        } else if exists|i: int| is_first_match(subkeys, id, i) {
            Ok(subkeys[choose|i: int| is_first_match(subkeys, id, i)].params)
        } else {
            Err(SelectError::KeyIdNotFound)
        },
    }
}

/// The identifier argument after case normalisation.
pub open spec fn lowered(target: Option<String>) -> Option<Seq<char>> {
    match target {
        None => None,
        Some(s) => Some(lower_of(s@)),
    }
}

/// An identifier argument taken as it stands.
pub open spec fn viewed(target: Option<String>) -> Option<Seq<char>> {
    match target {
        None => None,
        Some(s) => Some(s@),
    }
}

/// No two keys of the document share an identifier.
pub open spec fn ids_distinct(primary: SecretKeyEntry, subkeys: Seq<SecretKeyEntry>) -> bool {
    &&& forall|i: int| 0 <= i < subkeys.len() ==> #[trigger] subkeys[i].key_id@ != primary.key_id@
    &&& forall|i: int, j: int|
        0 <= i < subkeys.len() && 0 <= j < subkeys.len() && i != j
            ==> #[trigger] subkeys[i].key_id@ != #[trigger] subkeys[j].key_id@
}

pub proof fn lemma_first_match_unique(subkeys: Seq<SecretKeyEntry>, id: Seq<char>, i: int, j: int)
    requires
        is_first_match(subkeys, id, i),
        is_first_match(subkeys, id, j),
    ensures
        i == j,
{
    if i < j {
        assert(subkeys[i].key_id@ != id);
    } else if j < i {
        assert(subkeys[j].key_id@ != id);
    }
}

/// Selects by an identifier that is already lowercase: the primary key when
/// there is none or it names the primary key, else the first subkey it names.
pub fn select_by_lowered_id<'a>(
    lowered_id: &Option<String>,
    pk: &'a SecretKeyEntry,
    s_subks: &'a Vec<SecretKeyEntry>,
) -> (r: Result<&'a SecretParamBundle, SelectError>)
    ensures
        match r {
            Ok(p) => selection(viewed(*lowered_id), *pk, s_subks@)
                == Ok::<SecretParamBundle, SelectError>(*p),
            Err(e) => selection(viewed(*lowered_id), *pk, s_subks@)
                == Err::<SecretParamBundle, SelectError>(e),
        },
{
    match lowered_id {
        None => Ok(&pk.params),
        Some(id) => {
            if pk.key_id == *id {
                return Ok(&pk.params);
            }
            let mut i: usize = 0;
            while i < s_subks.len()
                invariant
                    0 <= i <= s_subks@.len(),
                    pk.key_id@ != id@,
                    viewed(*lowered_id) == Some(id@),
                    forall|j: int| 0 <= j < i ==> #[trigger] s_subks@[j].key_id@ != id@,
                decreases s_subks@.len() - i,
            {
                if s_subks[i].key_id == *id {
                    proof {
                        assert(is_first_match(s_subks@, id@, i as int));
                        assert(exists|c: int| is_first_match(s_subks@, id@, c));
                        let c = choose|c: int| is_first_match(s_subks@, id@, c);
                        lemma_first_match_unique(s_subks@, id@, i as int, c);
                    }
                    return Ok(&s_subks[i].params);
                }
                i = i + 1;
            }
            Err(SelectError::KeyIdNotFound)
        },
    }
}

/// Selects the secret parameters for the identifier argument `g_k_id`,
/// compared without regard to case.
pub fn find_secret_param_by_key_id<'a>(
    g_k_id: &Option<String>,
    pk: &'a SecretKeyEntry,
    s_subks: &'a Vec<SecretKeyEntry>,
) -> (r: Result<&'a SecretParamBundle, SelectError>)
    ensures
        match r {
            Ok(p) => selection(lowered(*g_k_id), *pk, s_subks@) == Ok::<SecretParamBundle, SelectError>(*p),
            Err(e) => selection(lowered(*g_k_id), *pk, s_subks@) == Err::<SecretParamBundle, SelectError>(e),
        },
{
    let lowered_id: Option<String> = match g_k_id {
        None => None,
        Some(id) => Some(lowercase(id.as_str())),
    };
    select_by_lowered_id(&lowered_id, pk, s_subks)
}

/// Without an identifier argument, a document of a primary key alone yields
/// the primary key's parameters.
pub proof fn lemma_select_primary_by_default(primary: SecretKeyEntry, subkeys: Seq<SecretKeyEntry>)
    requires
        subkeys.len() == 0,
    ensures
        selection(None, primary, subkeys) == Ok::<SecretParamBundle, SelectError>(primary.params),
{
}

/// An identifier argument that names a subkey in any case yields exactly that
/// subkey's parameters.
pub proof fn lemma_select_subkey_any_case(
    id: String,
    primary: SecretKeyEntry,
    subkeys: Seq<SecretKeyEntry>,
    i: int,
)
    requires
        ids_distinct(primary, subkeys),
        0 <= i < subkeys.len(),
        lower_of(id@) == subkeys[i].key_id@,
    ensures
        selection(lowered(Some(id)), primary, subkeys) == Ok::<SecretParamBundle, SelectError>(subkeys[i].params),
{
    let k = lower_of(id@);
    assert(subkeys[i].key_id@ != primary.key_id@);
    assert forall|j: int| 0 <= j < i implies #[trigger] subkeys[j].key_id@ != k by {
        assert(subkeys[j].key_id@ != subkeys[i].key_id@);
    }
    assert(is_first_match(subkeys, k, i));
    let c = choose|c: int| is_first_match(subkeys, k, c);
    lemma_first_match_unique(subkeys, k, i, c);
}

/// An identifier argument that names no key fails, with no fall-back to the
/// primary key.
pub proof fn lemma_select_unknown_id_fails(
    id: String,
    primary: SecretKeyEntry,
    subkeys: Seq<SecretKeyEntry>,
)
    requires
        primary.key_id@ != lower_of(id@),
        forall|i: int| 0 <= i < subkeys.len() ==> #[trigger] subkeys[i].key_id@ != lower_of(id@),
    ensures
        selection(lowered(Some(id)), primary, subkeys) == Err::<SecretParamBundle, SelectError>(SelectError::KeyIdNotFound),
{
}

} // verus!
