//! Stations and their registration.

use vstd::prelude::*;
use crate::quantity::Quantity;
use crate::text::{
    decimal, decimal_string, members_text, object_text, optional_member, put_member, quoted,
    same_text, string_text, Member,
};

verus! {

/// How the data of a station is shared.
#[derive(Clone, Copy, Debug, PartialEq, Eq, Structural)]
pub enum StationVisibility {
    /// Shared with the service and its partners.
    Open,
    /// Shared with the service only, and shown by it to everyone.
    OnlyWindy,
    /// Kept to the owner's account.
    Private,
}

impl StationVisibility {
    /// The name that the service knows the policy by.
    pub open spec fn wire_name(self) -> Seq<char> {
        match self {
            StationVisibility::Open => "Open"@,
            StationVisibility::OnlyWindy => "Only Windy"@,
            StationVisibility::Private => "Private"@,
        }
    }

    /// The policy that the service knows by `name`, if there is one.
    pub open spec fn named(name: Seq<char>) -> Option<StationVisibility> {
        if name == "Open"@ {
            Some(StationVisibility::Open)
        } else if name == "Only Windy"@ {
            Some(StationVisibility::OnlyWindy)
        } else if name == "Private"@ {
            Some(StationVisibility::Private)
        } else {
            None
        }
    }

    /// The name that the service knows the policy by.
    pub fn as_str(&self) -> (name: &'static str)
        ensures
            name@ == self.wire_name(),
    {
        match self {
            StationVisibility::Open => "Open",
            StationVisibility::OnlyWindy => "Only Windy",
            StationVisibility::Private => "Private",
        }
    }

    /// Reads a policy from the name that the service knows it by. Names are
    /// matched exactly, letter for letter.
    pub fn from_wire_name(name: &str) -> (policy: Option<StationVisibility>)
        ensures
            policy == Self::named(name@),
    {
        if same_text(name, "Open") {
            Some(StationVisibility::Open)
        } else if same_text(name, "Only Windy") {
            Some(StationVisibility::OnlyWindy)
        } else if same_text(name, "Private") {
            Some(StationVisibility::Private)
        } else {
            None
        }
    }

    /// Every policy is read back from its own name, and from no other name:
    /// writing a policy and reading it gives the same policy again.
    pub proof fn lemma_wire_name_round_trip(policy: StationVisibility, name: Seq<char>)
        ensures
            Self::named(policy.wire_name()) == Some(policy),
            Self::named(name) == Some(policy) <==> name == policy.wire_name(),
            StationVisibility::OnlyWindy.wire_name() == seq![
                'O',
                'n',
                'l',
                'y',
                ' ',
                'W',
                'i',
                'n',
                'd',
                'y',
            ],
    {
        reveal_strlit("Open");
        reveal_strlit("Only Windy");
        reveal_strlit("Private");
        assert("Open"@.len() == 4);
        assert("Only Windy"@.len() == 10);
        assert("Private"@.len() == 7);
        assert("Only Windy"@ =~= seq!['O', 'n', 'l', 'y', ' ', 'W', 'i', 'n', 'd', 'y']);
    }
}

/// One weather station as it is registered with the service.
#[derive(Clone, Debug, PartialEq)]
pub struct Station {
    /// Tells the stations of one account apart.
    pub id: u32,
    /// How the station's data is shared.
    pub visibility: StationVisibility,
    /// The name shown for the station.
    pub name: String,
    /// North-south position, in degrees.
    pub latitude: Quantity,
    /// East-west position, in degrees.
    pub longitude: Quantity,
    /// Height above sea level, in meters.
    pub elevation: u32,
    /// Height of the temperature sensor above the ground, in meters.
    pub temp_height: u32,
    /// Height of the wind sensor above the ground, in meters.
    pub wind_height: u32,
}

impl Station {
    /// The members of the station's JSON object: every field, under the
    /// key that the service reads it by, in the order of the fields.
    pub open spec fn members(&self) -> Seq<Member> {
        seq![
            Member { key: "station"@, value: decimal(self.id as nat) },
            Member { key: "visibility"@, value: string_text(self.visibility.wire_name()) },
            Member { key: "name"@, value: string_text(self.name@) },
            Member { key: "latitude"@, value: self.latitude@ },
            Member { key: "longitude"@, value: self.longitude@ },
            Member { key: "elevation"@, value: decimal(self.elevation as nat) },
            Member { key: "tempheight"@, value: decimal(self.temp_height as nat) },
            Member { key: "windheight"@, value: decimal(self.wind_height as nat) },
        ]
    }

    /// The station's JSON object.
    pub open spec fn json(&self) -> Seq<char> {
        object_text(self.members())
    }

    /// Renders the station as its JSON object.
    pub fn to_json(&self) -> (text: String)
        ensures
            text@ == self.json(),
    {
        let mut out = String::new();
        out.push('{');
        let ghost base = seq!['{'];
        let ghost m0 = Seq::<Member>::empty();
        assert(out@ =~= base + members_text(m0));
        let id = decimal_string(self.id);
        let first = put_member(
            &mut out,
            true,
            "station",
            Some(id.as_str()),
            Ghost(base),
            Ghost(m0),
        );
        let ghost m1 = m0 + optional_member("station"@, Some(id@));
        let visibility = quoted(self.visibility.as_str());
        let first = put_member(
            &mut out,
            first,
            "visibility",
            Some(visibility.as_str()),
            Ghost(base),
            Ghost(m1),
        );
        let ghost m2 = m1 + optional_member("visibility"@, Some(visibility@));
        let name = quoted(self.name.as_str());
        let first = put_member(
            &mut out,
            first,
            "name",
            Some(name.as_str()),
            Ghost(base),
            Ghost(m2),
        );
        let ghost m3 = m2 + optional_member("name"@, Some(name@));
        let first = put_member(
            &mut out,
            first,
            "latitude",
            Some(self.latitude.as_str()),
            Ghost(base),
            Ghost(m3),
        );
        let ghost m4 = m3 + optional_member("latitude"@, Some(self.latitude@));
        let first = put_member(
            &mut out,
            first,
            "longitude",
            Some(self.longitude.as_str()),
            Ghost(base),
            Ghost(m4),
        );
        let ghost m5 = m4 + optional_member("longitude"@, Some(self.longitude@));
        let elevation = decimal_string(self.elevation);
        let first = put_member(
            &mut out,
            first,
            "elevation",
            Some(elevation.as_str()),
            Ghost(base),
            Ghost(m5),
        );
        let ghost m6 = m5 + optional_member("elevation"@, Some(elevation@));
        let temp_height = decimal_string(self.temp_height);
        let first = put_member(
            &mut out,
            first,
            "tempheight",
            Some(temp_height.as_str()),
            Ghost(base),
            Ghost(m6),
        );
        let ghost m7 = m6 + optional_member("tempheight"@, Some(temp_height@));
        let wind_height = decimal_string(self.wind_height);
        let _ = put_member(
            &mut out,
            first,
            "windheight",
            Some(wind_height.as_str()),
            Ghost(base),
            Ghost(m7),
        );
        let ghost m8 = m7 + optional_member("windheight"@, Some(wind_height@));
        out.push('}');
        proof {
            assert(m8 =~= self.members());
            assert(out@ =~= self.json());
        }
        out
    }
}

} // verus!
