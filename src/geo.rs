//! Geographic points, held as the number texts that the sources give.
use vstd::prelude::*;

verus! {

/// A latitude and a longitude, each a number written as text. Keeping the
/// text keeps every digit that the source wrote.
#[derive(Debug, Clone)]
pub struct PointGeo {
    pub lat: String,
    pub lon: String,
}

impl View for PointGeo {
    type V = (Seq<char>, Seq<char>);

    open spec fn view(&self) -> (Seq<char>, Seq<char>) {
        (self.lat@, self.lon@)
    }
}

/// The form `lat,lon` that records store.
pub open spec fn coordinates_text(p: (Seq<char>, Seq<char>)) -> Seq<char> {
    p.0 + ","@ + p.1
}

impl PointGeo {
    /// Writes the point as `lat,lon`, digit for digit.
    pub fn to_coordinates(&self) -> (r: String)
        ensures
            r@ == coordinates_text(self@),
    {
        let mut r = self.lat.clone();
        r.append(",");
        r.append(self.lon.as_str());
        r
    }

    /// Writes the point as `(lat,lon)`.
    pub fn display(&self) -> (r: String)
        ensures
            r@ == "("@ + coordinates_text(self@) + ")"@,
    {
        let mut r = "(".to_owned();
        r.append(self.lat.as_str());
        r.append(",");
        r.append(self.lon.as_str());
        r.append(")");
        proof {
            assert(r@ =~= "("@ + coordinates_text(self@) + ")"@);
        }
        r
    }
}

/// Writing a point loses nothing: the latitude, a comma and the longitude
/// follow one another, and both parts can be read back from the text.
pub proof fn lemma_coordinates_lossless(p: (Seq<char>, Seq<char>))
    ensures
        coordinates_text(p).len() == p.0.len() + 1 + p.1.len(),
        coordinates_text(p).take(p.0.len() as int) == p.0,
        coordinates_text(p)[p.0.len() as int] == ',',
        coordinates_text(p).skip(p.0.len() as int + 1) == p.1,
{
    reveal_strlit(",");
    assert(coordinates_text(p).take(p.0.len() as int) =~= p.0);
    assert(coordinates_text(p).skip(p.0.len() as int + 1) =~= p.1);
}

} // verus!
