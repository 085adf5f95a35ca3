//! Resource listings: pages of resources of one kind.

use vstd::prelude::*;

use crate::encode::{bool_str, spec_bool_str, spec_decimal, u64_decimal};
use crate::entities::{DecodeError, RawId, ResourceId, ResourceType};

verus! {

/// The wire form of one row of a resource listing.
#[derive(Debug, PartialEq)]
pub struct RawResource {
    pub id: RawId,
    pub text: String,
    pub dept: String,
}

/// One resource the service returned for a listing request. Resource kinds
/// carry string identifiers, so the identifier is a string by construction.
#[derive(Debug, PartialEq)]
pub struct Resource {
    pub id: ResourceId,
    pub text: String,
    pub dept: String,
}

/// A page of resources of one kind.
#[derive(Debug, PartialEq)]
pub struct ResourceList {
    pub total: u64,
    pub results: Vec<Resource>,
}

/// A listing request, filtered by a resource kind. The filter is a
/// [`ResourceType`], so a request for the unknown kind cannot be written.
#[derive(Debug, PartialEq)]
pub struct ResourceListRequest {
    pub my_resources: bool,
    pub search_term: String,
    pub page_size: u64,
    pub page_number: u64,
    pub res_type: ResourceType,
}

impl ResourceListRequest {
    /// The form fields of this request, under the service's field names.
    pub fn form(&self) -> (r: Vec<(String, String)>)
        ensures
            r@.len() == 5,
            r@[0].0@ == "myResources"@ && r@[0].1@ == spec_bool_str(self.my_resources),
            r@[1].0@ == "searchTerm"@ && r@[1].1@ == self.search_term@,
            r@[2].0@ == "pageSize"@ && r@[2].1@ == spec_decimal(self.page_size as nat),
            r@[3].0@ == "pageNumber"@ && r@[3].1@ == spec_decimal(self.page_number as nat),
            r@[4].0@ == "resType"@ && r@[4].1@ == spec_decimal(
                self.res_type.spec_entity_type().spec_code() as nat,
            ),
    {
        let mut form: Vec<(String, String)> = Vec::new();
        form.push(("myResources".to_owned(), bool_str(self.my_resources).to_owned()));
        form.push(("searchTerm".to_owned(), self.search_term.clone()));
        form.push(("pageSize".to_owned(), u64_decimal(self.page_size)));
        form.push(("pageNumber".to_owned(), u64_decimal(self.page_number)));
        form.push(("resType".to_owned(), u64_decimal(self.res_type.code() as u64)));
        form
    }
}

/// What decoding one listing row against its kind yields: the identifier
/// must be a string, as every resource kind requires.
pub open spec fn spec_decode_resource(kind: ResourceType, row: RawResource) -> Result<
    Resource,
    DecodeError,
> {
    match row.id {
        RawId::Text(s) => Ok(Resource { id: ResourceId(s), text: row.text, dept: row.dept }),
        _ => Err(DecodeError::IdShape { kind: kind.spec_entity_type() }),
    }
}

/// What decoding a whole listing page yields: every row in order, or the
/// first row's failure.
pub open spec fn spec_decode_resources(kind: ResourceType, rows: Seq<RawResource>, i: int) -> Result<
    Seq<Resource>,
    DecodeError,
>
    decreases rows.len() - i,
{
    if i < 0 || i >= rows.len() {
        Ok(Seq::empty())
    } else {
        match spec_decode_resource(kind, rows[i]) {
            Err(e) => Err(e),
            Ok(res) => match spec_decode_resources(kind, rows, i + 1) {
                Err(e) => Err(e),
                Ok(rest) => Ok(seq![res] + rest),
            },
        }
    }
}

impl Resource {
    /// Decode one listing row against the kind the listing was filtered by.
    pub fn decode(kind: ResourceType, row: &RawResource) -> (r: Result<Resource, DecodeError>)
        ensures
            r == spec_decode_resource(kind, *row),
    {
        match &row.id {
            RawId::Text(s) => Ok(
                Resource { id: ResourceId(s.clone()), text: row.text.clone(), dept: row.dept.clone() },
            ),
            RawId::Null => Err(DecodeError::IdShape { kind: kind.entity_type() }),
            RawId::Other => Err(DecodeError::IdShape { kind: kind.entity_type() }),
        }
    }
}

impl ResourceList {
    /// Decode a whole listing page: the reported total and every row, in
    /// order; one failing row fails the page.
    pub fn decode(kind: ResourceType, total: u64, rows: &Vec<RawResource>) -> (r: Result<
        ResourceList,
        DecodeError,
    >)
        ensures
            match r {
                Ok(list) => list.total == total && spec_decode_resources(kind, rows@, 0) == Ok::<
                    Seq<Resource>,
                    DecodeError,
                >(list.results@),
                Err(e) => spec_decode_resources(kind, rows@, 0) == Err::<
                    Seq<Resource>,
                    DecodeError,
                >(e),
            },
    {
        let mut results: Vec<Resource> = Vec::new();
        let mut i: usize = 0;
        while i < rows.len()
            invariant
                i <= rows@.len(),
                results@.len() == i,
                spec_decode_resources(kind, rows@, 0) == (match spec_decode_resources(
                    kind,
                    rows@,
                    i as int,
                ) {
                    Ok(rest) => Ok::<Seq<Resource>, DecodeError>(results@ + rest),
                    Err(e) => Err::<Seq<Resource>, DecodeError>(e),
                }),
            decreases rows@.len() - i,
        {
            match Resource::decode(kind, &rows[i]) {
                Err(e) => {
                    return Err(e);
                },
                Ok(res) => {
                    proof {
                        let rest_or = spec_decode_resources(kind, rows@, i + 1 as int);
                        if rest_or is Ok {
                            assert(results@ + (seq![res] + rest_or->Ok_0) =~= results@.push(res)
                                + rest_or->Ok_0);
                        }
                    }
                    results.push(res);
                    i = i + 1;
                },
            }
        }
        proof {
            assert(results@ + Seq::<Resource>::empty() =~= results@);
        }
        Ok(ResourceList { total, results })
    }
}

} // verus!
