//! Positions, the squares that addresses cover, and the address record.

use crate::api::envelope::Payload;
use crate::api::viewed;
use crate::endpoint::{parse_url, parsed_url};
use crate::json::{
    contents, member, number_member, optional_text_member, text_member, JsonView,
};
use serde_json::Value;
use vstd::prelude::*;
use vstd::string::StringExecFns;

verus! {

/// A position on the globe. Each coordinate is kept as the decimal text of its
/// number; no range is enforced here, the service judges that.
#[derive(Debug)]
pub struct GeoCoords {
    pub lat: String,
    pub lng: String,
}

pub struct GeoCoordsView {
    pub lat: Seq<char>,
    pub lng: Seq<char>,
}

impl GeoCoordsView {
    /// Latitude, a comma, longitude: the form in which a position is sent and
    /// shown.
    pub open spec fn text(self) -> Seq<char> {
        self.lat + ","@ + self.lng
    }
}

impl View for GeoCoords {
    type V = GeoCoordsView;

    open spec fn view(&self) -> GeoCoordsView {
        GeoCoordsView { lat: self.lat@, lng: self.lng@ }
    }
}

impl GeoCoords {
    /// The position that a document holds: an object with the numbers `lat`
    /// and `lng`.
    pub open spec fn shape(doc: JsonView) -> Option<GeoCoordsView> {
        match (doc.number_member("lat"@), doc.number_member("lng"@)) {
            (Some(lat), Some(lng)) => Some(GeoCoordsView { lat, lng }),
            _ => None,
        }
    }

    /// Reads a position from a document, where the document holds one.
    pub fn from_json(doc: &Value) -> (coords: Option<GeoCoords>)
        ensures
            viewed(coords) == Self::shape(contents(*doc)),
    {
        let lat = number_member(doc, "lat");
        let lng = number_member(doc, "lng");
        match (lat, lng) {
            (Some(lat), Some(lng)) => Some(GeoCoords { lat, lng }),
            _ => None,
        }
    }

    /// The position as a point of the plane: longitude is `x`, latitude is
    /// `y`.
    pub fn xy(&self) -> (point: (String, String))
        ensures
            point.0@ == self@.lng,
            point.1@ == self@.lat,
    {
        (self.lng.clone(), self.lat.clone())
    }

    /// The position as `lat,lng`.
    pub fn to_string(&self) -> (text: String)
        ensures
            text@ == self@.text(),
    {
        let mut text = self.lat.clone();
        text.append(",");
        text.append(self.lng.as_str());
        text
    }
}

/// The square that an address covers, by two opposite corners. Nothing is
/// enforced of how the corners lie to each other.
#[derive(Debug)]
pub struct Square {
    pub southwest: GeoCoords,
    pub northeast: GeoCoords,
}

pub struct SquareView {
    pub southwest: GeoCoordsView,
    pub northeast: GeoCoordsView,
}

impl View for Square {
    type V = SquareView;

    open spec fn view(&self) -> SquareView {
        SquareView { southwest: self.southwest@, northeast: self.northeast@ }
    }
}

impl Square {
    /// The square that a document holds: an object with the positions
    /// `southwest` and `northeast`.
    pub open spec fn shape(doc: JsonView) -> Option<SquareView> {
        match (doc.member("southwest"@), doc.member("northeast"@)) {
            (Some(southwest), Some(northeast)) => match (
                GeoCoords::shape(southwest),
                GeoCoords::shape(northeast),
            ) {
                (Some(southwest), Some(northeast)) => Some(SquareView { southwest, northeast }),
                _ => None,
            },
            _ => None,
        }
    }

    /// Reads a square from a document, where the document holds one.
    pub fn from_json(doc: &Value) -> (square: Option<Square>)
        ensures
            viewed(square) == Self::shape(contents(*doc)),
    {
        match (member(doc, "southwest"), member(doc, "northeast")) {
            (Some(southwest), Some(northeast)) => match (
                GeoCoords::from_json(southwest),
                GeoCoords::from_json(northeast),
            ) {
                (Some(southwest), Some(northeast)) => Some(Square { southwest, northeast }),
                _ => None,
            },
            _ => None,
        }
    }
}

/// The address record that both conversions return. `map` holds a URL in its
/// normal form.
#[derive(Debug)]
pub struct Coords {
    pub country: String,
    pub square: Square,
    pub nearest_place: Option<String>,
    pub coordinates: GeoCoords,
    pub words: String,
    pub language: String,
    pub map: String,
}

pub struct CoordsView {
    pub country: Seq<char>,
    pub square: SquareView,
    pub nearest_place: Option<Seq<char>>,
    pub coordinates: GeoCoordsView,
    pub words: Seq<char>,
    pub language: Seq<char>,
    pub map: Seq<char>,
}

impl CoordsView {
    /// A record is shown as its position alone, whatever else it holds.
    pub open spec fn text(self) -> Seq<char> {
        self.coordinates.text()
    }
}

impl View for Coords {
    type V = CoordsView;

    open spec fn view(&self) -> CoordsView {
        CoordsView {
            country: self.country@,
            square: self.square@,
            nearest_place: crate::json::text_of(self.nearest_place),
            coordinates: self.coordinates@,
            words: self.words@,
            language: self.language@,
            map: self.map@,
        }
    }
}

impl Coords {
    /// The strings and the optional string of a record, where all of them fit.
    pub open spec fn texts(doc: JsonView) -> Option<
        (Seq<char>, Option<Seq<char>>, Seq<char>, Seq<char>),
    > {
        match (
            doc.text_member("country"@),
            doc.optional_text_member("nearest_place"@),
            doc.text_member("words"@),
            doc.text_member("language"@),
        ) {
            (Some(country), Some(nearest_place), Some(words), Some(language)) => Some(
                (country, nearest_place, words, language),
            ),
            _ => None,
        }
    }

    /// The square and the position of a record, where both fit.
    pub open spec fn places(doc: JsonView) -> Option<(SquareView, GeoCoordsView)> {
        match (doc.member("square"@), doc.member("coordinates"@)) {
            (Some(square), Some(coordinates)) => match (
                Square::shape(square),
                GeoCoords::shape(coordinates),
            ) {
                (Some(square), Some(coordinates)) => Some((square, coordinates)),
                _ => None,
            },
            _ => None,
        }
    }

    /// The link of a record: the string `map`, where it is a URL, in the
    /// URL's normal form.
    pub open spec fn link(doc: JsonView) -> Option<Seq<char>> {
        match doc.text_member("map"@) {
            Some(map) => parsed_url(map),
            None => None,
        }
    }

    /// Reads the strings of a record.
    fn texts_from_json(doc: &Value) -> (texts: Option<(String, Option<String>, String, String)>)
        ensures
            match Self::texts(contents(*doc)) {
                Some(held) => texts is Some && texts->Some_0.0@ == held.0
                    && crate::json::text_of(texts->Some_0.1) == held.1 && texts->Some_0.2@
                    == held.2 && texts->Some_0.3@ == held.3,
                None => texts is None,
            },
    {
        let country = text_member(doc, "country");
        let nearest_place = optional_text_member(doc, "nearest_place");
        let words = text_member(doc, "words");
        let language = text_member(doc, "language");
        match (country, nearest_place, words, language) {
            (Some(country), Some(nearest_place), Some(words), Some(language)) => Some(
                (country, nearest_place, words, language),
            ),
            _ => None,
        }
    }

    /// Reads the square and the position of a record.
    fn places_from_json(doc: &Value) -> (places: Option<(Square, GeoCoords)>)
        ensures
            match Self::places(contents(*doc)) {
                Some(held) => places is Some && places->Some_0.0@ == held.0 && places->Some_0.1@
                    == held.1,
                None => places is None,
            },
    {
        match (member(doc, "square"), member(doc, "coordinates")) {
            (Some(square), Some(coordinates)) => match (
                Square::from_json(square),
                GeoCoords::from_json(coordinates),
            ) {
                (Some(square), Some(coordinates)) => Some((square, coordinates)),
                _ => None,
            },
            _ => None,
        }
    }

    /// Reads the link of a record.
    fn link_from_json(doc: &Value) -> (link: Option<String>)
        ensures
            crate::json::text_of(link) == Self::link(contents(*doc)),
    {
        match text_member(doc, "map") {
            Some(map) => match parse_url(map.as_str()) {
                Ok(link) => Some(link),
                Err(_) => None,
            },
            None => None,
        }
    }

    /// The record as its position, `lat,lng`.
    pub fn to_string(&self) -> (text: String)
        ensures
            text@ == self@.text(),
    {
        self.coordinates.to_string()
    }
}

impl Payload for Coords {
    /// The record that a document holds: an object with the strings
    /// `country`, `words` and `language`, the square `square`, the position
    /// `coordinates`, the URL `map`, and `nearest_place`, which may be a
    /// string, `null` or missing. Members of other names are passed over.
    open spec fn shape(doc: JsonView) -> Option<CoordsView> {
        match (Self::texts(doc), Self::places(doc), Self::link(doc)) {
            (Some(texts), Some(places), Some(map)) => Some(
                CoordsView {
                    country: texts.0,
                    square: places.0,
                    nearest_place: texts.1,
                    coordinates: places.1,
                    words: texts.2,
                    language: texts.3,
                    map,
                },
            ),
            _ => None,
        }
    }

    fn from_json(doc: &Value) -> (coords: Option<Coords>) {
        let texts = Self::texts_from_json(doc);
        let places = Self::places_from_json(doc);
        let link = Self::link_from_json(doc);
        match (texts, places, link) {
            (Some(texts), Some(places), Some(map)) => Some(
                Coords {
                    country: texts.0,
                    square: places.0,
                    nearest_place: texts.1,
                    coordinates: places.1,
                    words: texts.2,
                    language: texts.3,
                    map,
                },
            ),
            _ => None,
        }
    }
}

} // verus!
