//! The registry of schools: two pages of entries, merged and filtered to
//! public institutions.
use vstd::prelude::*;
use crate::geo::PointGeo;
use crate::text::{contains_text, has_substring};

verus! {

/// One entry of the registry. Numeric fields are held as the texts that
/// the registry's numbers are written as.
#[derive(Debug, Clone)]
pub struct ApiSchool {
    pub code_uai: String,
    pub ndeg_siret: Option<String>,
    pub type_d_etablissement: String,
    /// The long name.
    pub nom: String,
    /// The abbreviation, when the registry gives one.
    pub sigle: Option<String>,
    /// The institutional status, e.g. `Public` or `Privé`.
    pub statut: String,
    pub tutelle: Option<String>,
    pub universite: Option<String>,
    pub boite_postale: Option<String>,
    pub adresse: String,
    /// The postal code.
    pub cp: String,
    pub commune: String,
    pub telephone: String,
    pub debut_portes_ouvertes: Option<String>,
    pub fin_portes_ouvertes: Option<String>,
    pub commentaires_portes_ouvertes: Option<String>,
    pub lien_site_onisep_fr: String,
    pub point_geo: PointGeo,
}

/// Where the registry is found.
#[derive(Debug)]
pub struct SchoolApiScraper {
    pub url: String,
}

#[derive(Debug, Clone, Copy, PartialEq, Eq, Structural)]
pub enum SchoolApiScraperError {
    /// A page could not be fetched.
    RequestFailed,
    /// A page is not a well-formed registry page.
    ParsingFailed,
}

/// The marker that a public institution's status holds.
pub open spec fn public_marker() -> Seq<char> {
    "Public"@
}

pub open spec fn is_public(s: ApiSchool) -> bool {
    has_substring(s.statut@, public_marker())
}

/// The public entries of `s`, in order.
pub open spec fn public_only(s: Seq<ApiSchool>) -> Seq<ApiSchool>
    decreases s.len(),
{
    if s.len() == 0 {
        seq![]
    } else if is_public(s.last()) {
        public_only(s.drop_last()).push(s.last())
    } else {
        public_only(s.drop_last())
    }
}

/// What the registry gives for its two pages: the first failure, or the
/// public entries of the first page and then of the second.
pub open spec fn merged(
    first: Result<Vec<ApiSchool>, SchoolApiScraperError>,
    second: Result<Vec<ApiSchool>, SchoolApiScraperError>,
    r: Result<Vec<ApiSchool>, SchoolApiScraperError>,
) -> bool {
    match (first, second) {
        (Err(e), _) => r == Err::<Vec<ApiSchool>, SchoolApiScraperError>(e),
        (Ok(_), Err(e)) => r == Err::<Vec<ApiSchool>, SchoolApiScraperError>(e),
        (Ok(a), Ok(b)) => r matches Ok(v) && v@ == public_only(a@ + b@),
    }
}

/// Every entry that the filter keeps is public, and the filter keeps no
/// more entries than it is given.
pub proof fn lemma_public_only_sound(s: Seq<ApiSchool>)
    ensures
        public_only(s).len() <= s.len(),
        forall|k: int| 0 <= k < public_only(s).len() ==> is_public(#[trigger] public_only(s)[k]),
    decreases s.len(),
{
    if s.len() > 0 {
        lemma_public_only_sound(s.drop_last());
        let prev = public_only(s.drop_last());
        assert forall|k: int| 0 <= k < public_only(s).len() implies is_public(
            #[trigger] public_only(s)[k],
        ) by {
            if k < prev.len() {
                assert(is_public(prev[k]));
            }
        }
    }
}

/// Filtering two pages one after the other is filtering their concatenation:
/// the public entries of the first page come before those of the second.
pub proof fn lemma_public_only_concat(a: Seq<ApiSchool>, b: Seq<ApiSchool>)
    ensures
        public_only(a + b) == public_only(a) + public_only(b),
    decreases b.len(),
{
    if b.len() == 0 {
        assert(a + b =~= a);
        assert(public_only(b) =~= seq![]);
        assert(public_only(a) + public_only(b) =~= public_only(a));
    } else {
        assert((a + b).drop_last() =~= a + b.drop_last());
        assert((a + b).last() == b.last());
        lemma_public_only_concat(a, b.drop_last());
        if is_public(b.last()) {
            assert(public_only(a) + public_only(b) =~= (public_only(a) + public_only(
                b.drop_last(),
            )).push(b.last()));
        }
    }
}

impl SchoolApiScraper {
    pub fn new(url: String) -> (r: Self)
        ensures
            r.url@ == url@,
    {
        Self { url }
    }

    /// Where the registry is found.
    pub fn url(&self) -> (r: String)
        ensures
            r@ == self.url@,
    {
        self.url.clone()
    }

    /// Joins the outcomes of the two page fetches. A failed page fails the
    /// whole registry (the first page's failure is reported first);
    /// otherwise the entries of the first page and then of the second are
    /// kept when their status marks a public institution.
    pub fn merge_pages(
        first: Result<Vec<ApiSchool>, SchoolApiScraperError>,
        second: Result<Vec<ApiSchool>, SchoolApiScraperError>,
    ) -> (r: Result<Vec<ApiSchool>, SchoolApiScraperError>)
        ensures
            merged(first, second, r),
    {
        let mut all = match first {
            Ok(a) => a,
            Err(e) => {
                return Err(e);
            },
        };
        let mut rest = match second {
            Ok(b) => b,
            Err(e) => {
                return Err(e);
            },
        };
        let ghost everything = all@ + rest@;
        all.append(&mut rest);
        assert(all@ == everything);
        let mut schools: Vec<ApiSchool> = Vec::new();
        let mut k: usize = 0;
        let n = all.len();
        while all.len() > 0
            invariant
                n == everything.len(),
                k + all@.len() == n,
                all@ == everything.skip(k as int),
                schools@ == public_only(everything.take(k as int)),
            decreases all@.len(),
        {
            let s = all.remove(0);
            assert(s == everything[k as int]);
            assert(everything.take(k + 1).drop_last() =~= everything.take(k as int));
            assert(all@ =~= everything.skip(k + 1));
            let public = "Public";
            if contains_text(s.statut.as_str(), public) {
                schools.push(s);
            }
            k = k + 1;
        }
        assert(everything.take(n as int) =~= everything);
        Ok(schools)
    }
}

} // verus!
