use vstd::prelude::*;
use crate::text::{comma_joined, join_commas};

verus! {

/// One award notification, as the server reports it.
#[derive(Debug)]
pub struct Balloon {
    pub problem: String,
    pub team: String,
    /// Where the team sits; absent when the server does not know.
    pub location: Option<String>,
    pub color: String,
    /// The award categories this balloon counts towards. The server pairs each
    /// with a value that nothing here reads, so only the names are kept.
    pub total: Vec<String>,
    pub awards: String,
    /// Server-assigned identifier, used only to acknowledge delivery.
    pub balloonid: usize,
}

/// The record a format template is filled from: every field is text.
#[derive(Debug)]
pub struct BalloonOutput {
    pub problem: String,
    pub team: String,
    pub location: String,
    pub color: String,
    pub total: String,
    pub awards: String,
}

/// The location printed for a balloon whose location is absent.
pub open spec fn unknown_location() -> Seq<char> {
    seq!['u', 'n', 'k', 'n', 'o', 'w', 'n']
}

/// The printed location of a balloon.
pub open spec fn shown_location(location: Option<String>) -> Seq<char> {
    match location {
        Some(l) => l@,
        None => unknown_location(),
    }
}

/// The text of a template filled from placeholder/value pairs: each
/// placeholder replaced by its value, or by nothing where no pair names it.
pub uninterp spec fn filled_template(format: Seq<char>, pairs: Seq<(Seq<char>, Seq<char>)>) -> Seq<char>;

/// Relies on text_placeholder's `Template::new` and `fill_with_hashmap`: the
/// `{{name}}` placeholders of `format` are replaced by the values of the pairs.
#[verifier::external_body]
fn fill_template(format: &str, pairs: &Vec<(String, String)>) -> (r: String)
    ensures
        r@ == filled_template(format@, pairs@.map_values(|p: (String, String)| (p.0@, p.1@))),
{
    let map: std::collections::HashMap<&str, &str> =
        pairs.iter().map(|p| (p.0.as_str(), p.1.as_str())).collect();
    text_placeholder::Template::new(format).fill_with_hashmap(&map)
}

impl BalloonOutput {
    /// The placeholder/value pairs of this record.
    pub open spec fn field_views(&self) -> Seq<(Seq<char>, Seq<char>)> {
        seq![
            (seq!['p', 'r', 'o', 'b', 'l', 'e', 'm'], self.problem@),
            (seq!['t', 'e', 'a', 'm'], self.team@),
            (seq!['l', 'o', 'c', 'a', 't', 'i', 'o', 'n'], self.location@),
            (seq!['c', 'o', 'l', 'o', 'r'], self.color@),
            (seq!['t', 'o', 't', 'a', 'l'], self.total@),
            (seq!['a', 'w', 'a', 'r', 'd', 's'], self.awards@),
        ]
    }

    /// Makes the printable record of a balloon: an absent location becomes
    /// `unknown`, and the award categories are joined with commas.
    pub fn from(b: Balloon) -> (r: BalloonOutput)
        ensures
            r.problem@ == b.problem@,
            r.team@ == b.team@,
            r.location@ == shown_location(b.location),
            r.color@ == b.color@,
            r.total@ == comma_joined(b.total@.map_values(|s: String| s@)),
            r.awards@ == b.awards@,
    {
        let total = join_commas(&b.total);
        let location = match b.location {
            Some(l) => l,
            None => {
                proof {
                    reveal_strlit("unknown");
                }
                String::from_str("unknown")
            },
        };
        BalloonOutput {
            problem: b.problem,
            team: b.team,
            location,
            color: b.color,
            total,
            awards: b.awards,
        }
    }

    /// The placeholder/value pairs a template is filled from.
    pub fn fields(&self) -> (r: Vec<(String, String)>)
        ensures
            r@.map_values(|p: (String, String)| (p.0@, p.1@)) == self.field_views(),
    {
        proof {
            reveal_strlit("problem");
            reveal_strlit("team");
            reveal_strlit("location");
            reveal_strlit("color");
            reveal_strlit("total");
            reveal_strlit("awards");
        }
        let mut r: Vec<(String, String)> = Vec::new();
        r.push((String::from_str("problem"), self.problem.clone()));
        r.push((String::from_str("team"), self.team.clone()));
        r.push((String::from_str("location"), self.location.clone()));
        r.push((String::from_str("color"), self.color.clone()));
        r.push((String::from_str("total"), self.total.clone()));
        r.push((String::from_str("awards"), self.awards.clone()));
        proof {
            let views = r@.map_values(|p: (String, String)| (p.0@, p.1@));
            assert(views[0] == self.field_views()[0]);
            assert(views[1] == self.field_views()[1]);
            assert(views[2] == self.field_views()[2]);
            assert(views[3] == self.field_views()[3]);
            assert(views[4] == self.field_views()[4]);
            assert(views[5] == self.field_views()[5]);
            assert(views =~= self.field_views());
        }
        r
    }

    /// The printable text of this record under the template `format`.
    pub fn render(&self, format: &str) -> (r: String)
        ensures
            r@ == filled_template(format@, self.field_views()),
    {
        let pairs = self.fields();
        fill_template(format, &pairs)
    }
}

} // verus!
