//! Reading the install command's category filters.
use vstd::prelude::*;
use crate::catalog::{FileCategory, category_named, lower_of};
use crate::errors::InitError;

verus! {

/// The category a command-line token names, compared without regard to case.
pub open spec fn token_category(t: Seq<char>) -> Option<FileCategory> {
    category_named(lower_of(t))
}

/// Reads a list of category tokens. With no list there is no filter; a list
/// whose tokens all name categories gives those categories in order; else the
/// first token that names none is returned in `InvalidCategory`.
pub fn parse_categories(cats: Option<Vec<String>>) -> (r: Result<Option<Vec<FileCategory>>, InitError>)
    ensures
        cats is None ==> r is Ok && r->Ok_0 is None,
        cats is Some ==> {
            let ts = cats->0@;
            &&& r is Ok <==> forall|i: int| 0 <= i < ts.len() ==> (#[trigger] token_category(ts[i]@)) is Some
            &&& r is Ok ==> {
                &&& r->Ok_0 is Some
                &&& r->Ok_0->0@.len() == ts.len()
                &&& forall|i: int| 0 <= i < ts.len() ==> Some(#[trigger] r->Ok_0->0@[i]) == token_category(ts[i]@)
            }
            &&& r is Err ==> exists|j: int| {
                &&& 0 <= j < ts.len()
                &&& (forall|i: int| 0 <= i < j ==> (#[trigger] token_category(ts[i]@)) is Some)
                &&& token_category(ts[j]@) is None
                &&& (r->Err_0 matches InitError::InvalidCategory(s) && s@ == #[trigger] ts[j]@)
            }
        },
{
    match cats {
        None => Ok(None),
        Some(strs) => {
            let mut result: Vec<FileCategory> = Vec::new();
            let mut i: usize = 0;
            while i < strs.len()
                invariant
                    cats == Some(strs),
                    i <= strs@.len(),
                    result@.len() == i,
                    forall|k: int| 0 <= k < i ==> Some(#[trigger] result@[k]) == token_category(strs@[k]@),
                decreases strs@.len() - i,
            {
                match FileCategory::from_str(strs[i].as_str()) {
                    Some(cat) => {
                        result.push(cat);
                    },
                    None => {
                        let bad = strs[i].clone();
                        assert(token_category(strs@[i as int]@) is None);
                        assert forall|k: int| 0 <= k < i implies (#[trigger] token_category(
                            strs@[k]@,
                        )) is Some by {
                            assert(Some(result@[k]) == token_category(strs@[k]@));
                        }
                        return Err(InitError::InvalidCategory(bad));
                    },
                }
                i = i + 1;
            }
            assert forall|k: int| 0 <= k < strs@.len() implies (#[trigger] token_category(
                strs@[k]@,
            )) is Some by {
                assert(Some(result@[k]) == token_category(strs@[k]@));
            }
            Ok(Some(result))
        },
    }
}

} // verus!
