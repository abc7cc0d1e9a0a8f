//! Image output: which text goes where on the base image.

use crate::config::Config;
use crate::error::Error;
use crate::field::{find_field, is_last_with_key, no_field_with_key, FieldText};
use crate::timestamp_file_writer::{format_timestamp, formatted_time, LocalTimestamp};
use vstd::prelude::*;

verus! {

/// One place on the image, as a mathematical value. `key` names the field
/// shown there; without a key the place shows the time of the call. `size` is
/// the height of the text in pixels, `red` the red part of its colour (the
/// rest of the colour is black, opaque).
pub ghost struct Slot {
    pub key: Option<Seq<char>>,
    pub x: int,
    pub y: int,
    pub size: int,
    pub red: int,
}

/// One place on the image.
#[derive(Clone, Copy, Debug)]
pub struct Placement {
    pub key: Option<&'static str>,
    pub x: i32,
    pub y: i32,
    pub size: u32,
    pub red: u8,
}

impl Placement {
    /// The place as a mathematical value.
    pub open spec fn model(&self) -> Slot {
        Slot {
            key: match self.key {
                Some(k) => Some(k@),
                None => None,
            },
            x: self.x as int,
            y: self.y as int,
            size: self.size as int,
            red: self.red as int,
        }
    }
}

/// The number of places on the image.
pub const PLACES: usize = 26;

/// The place numbered `i`, in drawing order.
pub open spec fn slot(i: int) -> Slot {
    if i == 0 {
        Slot { key: Some("00_7210_6521_10_0100_002_2_0"@), x: 526, y: 88, size: 22, red: 255 }
    }     else if i == 1 {
        Slot { key: Some("00_7210_6521_10_0100_000_2_0"@), x: 753, y: 374, size: 22, red: 255 }
    }     else if i == 2 {
        Slot { key: Some("00_0010_7210_10_0100_000_2_0"@), x: 261, y: 64, size: 22, red: 255 }
    }     else if i == 3 {
        Slot { key: Some("00_0010_7210_10_0100_010_2_0"@), x: 374, y: 174, size: 22, red: 255 }
    }     else if i == 4 {
        Slot { key: Some("00_0010_7210_10_0100_004_2_0"@), x: 357, y: 599, size: 22, red: 255 }
    }     else if i == 5 {
        Slot { key: Some("00_7210_6521_10_0100_004_2_0"@), x: 269, y: 332, size: 22, red: 255 }
    }     else if i == 6 {
        Slot { key: None, x: 164, y: 12, size: 24, red: 0 }
    }     else if i == 7 {
        Slot { key: Some("00_0010_7210_10_0100_024_2_0"@), x: 620, y: 15, size: 24, red: 0 }
    }     else if i == 8 {
        Slot { key: Some("00_6521_7210_10_0200_032_1_0"@), x: 180, y: 717, size: 24, red: 0 }
    }     else if i == 9 {
        Slot { key: Some("00_6521_7210_10_0200_000_1_0"@), x: 715, y: 352, size: 20, red: 255 }
    }     else if i == 10 {
        Slot { key: Some("00_6521_7210_10_0200_024_1_0"@), x: 197, y: 378, size: 20, red: 255 }
    }     else if i == 11 {
        Slot { key: Some("00_0010_7210_10_0100_020_1_0"@), x: 498, y: 276, size: 20, red: 255 }
    }     else if i == 12 {
        Slot { key: Some("00_0010_7210_10_0100_021_1_0"@), x: 331, y: 415, size: 20, red: 255 }
    }     else if i == 13 {
        Slot { key: Some("00_0010_7210_10_0100_023_1_0"@), x: 271, y: 421, size: 20, red: 255 }
    }     else if i == 14 {
        Slot { key: Some("00_6521_7210_10_0200_032_1_0"@), x: 654, y: 612, size: 22, red: 255 }
    }     else if i == 15 {
        Slot { key: Some("00_0010_7210_10_0100_002_2_0"@), x: 457, y: 329, size: 22, red: 128 }
    }     else if i == 16 {
        Slot { key: Some("00_0010_7210_10_0100_006_2_0"@), x: 386, y: 329, size: 22, red: 128 }
    }     else if i == 17 {
        Slot { key: Some("00_0010_7210_10_0100_008_2_0"@), x: 382, y: 396, size: 22, red: 128 }
    }     else if i == 18 {
        Slot { key: Some("00_6521_7210_10_0200_008_1_0"@), x: 671, y: 317, size: 20, red: 255 }
    }     else if i == 19 {
        Slot { key: Some("00_6521_7210_10_0200_016_1_0"@), x: 667, y: 359, size: 20, red: 255 }
    }     else if i == 20 {
        Slot { key: Some("00_7210_6521_10_0100_008_2_0"@), x: 523, y: 143, size: 22, red: 255 }
    }     else if i == 21 {
        Slot { key: Some("00_0010_7210_10_0100_018_2_0"@), x: 496, y: 291, size: 22, red: 255 }
    }     else if i == 22 {
        Slot { key: Some("00_0010_7210_10_0100_004_2_0"@), x: 376, y: 523, size: 22, red: 255 }
    }     else if i == 23 {
        Slot { key: Some("00_6521_7210_10_0200_032_1_0"@), x: 188, y: 450, size: 20, red: 255 }
    }     else if i == 24 {
        Slot { key: Some("00_7210_6521_10_0100_006_2_0"@), x: 650, y: 487, size: 22, red: 255 }
    } else {
        Slot { key: Some("00_0010_7211_10_0100_000_2_0"@), x: 762, y: 321, size: 20, red: 0 }
    }
}

/// The place numbered `i`, in drawing order.
pub fn placement(i: usize) -> (p: Placement)
    requires
        i < PLACES,
    ensures
        p.model() == slot(i as int),
{
    if i == 0 {
        Placement { key: Some("00_7210_6521_10_0100_002_2_0"), x: 526, y: 88, size: 22, red: 255 }
    }     else if i == 1 {
        Placement { key: Some("00_7210_6521_10_0100_000_2_0"), x: 753, y: 374, size: 22, red: 255 }
    }     else if i == 2 {
        Placement { key: Some("00_0010_7210_10_0100_000_2_0"), x: 261, y: 64, size: 22, red: 255 }
    }     else if i == 3 {
        Placement { key: Some("00_0010_7210_10_0100_010_2_0"), x: 374, y: 174, size: 22, red: 255 }
    }     else if i == 4 {
        Placement { key: Some("00_0010_7210_10_0100_004_2_0"), x: 357, y: 599, size: 22, red: 255 }
    }     else if i == 5 {
        Placement { key: Some("00_7210_6521_10_0100_004_2_0"), x: 269, y: 332, size: 22, red: 255 }
    }     else if i == 6 {
        Placement { key: None, x: 164, y: 12, size: 24, red: 0 }
    }     else if i == 7 {
        Placement { key: Some("00_0010_7210_10_0100_024_2_0"), x: 620, y: 15, size: 24, red: 0 }
    }     else if i == 8 {
        Placement { key: Some("00_6521_7210_10_0200_032_1_0"), x: 180, y: 717, size: 24, red: 0 }
    }     else if i == 9 {
        Placement { key: Some("00_6521_7210_10_0200_000_1_0"), x: 715, y: 352, size: 20, red: 255 }
    }     else if i == 10 {
        Placement { key: Some("00_6521_7210_10_0200_024_1_0"), x: 197, y: 378, size: 20, red: 255 }
    }     else if i == 11 {
        Placement { key: Some("00_0010_7210_10_0100_020_1_0"), x: 498, y: 276, size: 20, red: 255 }
    }     else if i == 12 {
        Placement { key: Some("00_0010_7210_10_0100_021_1_0"), x: 331, y: 415, size: 20, red: 255 }
    }     else if i == 13 {
        Placement { key: Some("00_0010_7210_10_0100_023_1_0"), x: 271, y: 421, size: 20, red: 255 }
    }     else if i == 14 {
        Placement { key: Some("00_6521_7210_10_0200_032_1_0"), x: 654, y: 612, size: 22, red: 255 }
    }     else if i == 15 {
        Placement { key: Some("00_0010_7210_10_0100_002_2_0"), x: 457, y: 329, size: 22, red: 128 }
    }     else if i == 16 {
        Placement { key: Some("00_0010_7210_10_0100_006_2_0"), x: 386, y: 329, size: 22, red: 128 }
    }     else if i == 17 {
        Placement { key: Some("00_0010_7210_10_0100_008_2_0"), x: 382, y: 396, size: 22, red: 128 }
    }     else if i == 18 {
        Placement { key: Some("00_6521_7210_10_0200_008_1_0"), x: 671, y: 317, size: 20, red: 255 }
    }     else if i == 19 {
        Placement { key: Some("00_6521_7210_10_0200_016_1_0"), x: 667, y: 359, size: 20, red: 255 }
    }     else if i == 20 {
        Placement { key: Some("00_7210_6521_10_0100_008_2_0"), x: 523, y: 143, size: 22, red: 255 }
    }     else if i == 21 {
        Placement { key: Some("00_0010_7210_10_0100_018_2_0"), x: 496, y: 291, size: 22, red: 255 }
    }     else if i == 22 {
        Placement { key: Some("00_0010_7210_10_0100_004_2_0"), x: 376, y: 523, size: 22, red: 255 }
    }     else if i == 23 {
        Placement { key: Some("00_6521_7210_10_0200_032_1_0"), x: 188, y: 450, size: 20, red: 255 }
    }     else if i == 24 {
        Placement { key: Some("00_7210_6521_10_0100_006_2_0"), x: 650, y: 487, size: 22, red: 255 }
    } else {
        Placement { key: Some("00_0010_7211_10_0100_000_2_0"), x: 762, y: 321, size: 20, red: 0 }
    }
}

/// A text to draw.
#[derive(Clone, Debug)]
pub struct Overlay {
    pub text: String,
    pub x: i32,
    pub y: i32,
    pub size: u32,
    pub red: u8,
}

/// Whether `text` is what a place shows: the time for a place without a key;
/// else the value, with its unit, of the last field with the place's key, or
/// three dashes where no field has it.
pub open spec fn shows(s: Slot, fields: Seq<FieldText>, time: Seq<char>, text: Seq<char>) -> bool {
    match s.key {
        None => text == time,
        Some(key) => (no_field_with_key(fields, key) && text == "---"@) || exists|i: int|
            is_last_with_key(fields, key, i) && text == fields[i].value_with_unit@,
    }
}

/// Whether `o` is the overlay of the place `s`.
pub open spec fn overlays_slot(o: Overlay, s: Slot, fields: Seq<FieldText>, time: Seq<char>) -> bool {
    &&& o.x == s.x
    &&& o.y == s.y
    &&& o.size == s.size
    &&& o.red == s.red
    &&& shows(s, fields, time, o.text@)
}

/// State of the image output.
pub struct PngGenerator {
    /// Whether a base image is loaded: only where the output is enabled.
    pub has_image: bool,
    /// Where the composite image is written.
    pub png_output_filename: String,
}

impl PngGenerator {
    /// A generator for the configured output path. The base image is to be
    /// loaded exactly where the output's interval is positive.
    pub fn from_config(config: &Config) -> (g: PngGenerator)
        ensures
            g.has_image == (config.png_tick_interval > 0),
            g.png_output_filename@ == config.png_output_filename@,
    {
        PngGenerator {
            has_image: config.png_tick_interval > 0,
            png_output_filename: config.png_output_filename.clone(),
        }
    }

    /// The texts to draw on a copy of the base image for a snapshot with
    /// these fields, in drawing order. Fails where no base image is loaded,
    /// or where the time cannot be shown.
    pub fn generate(&self, fields: &Vec<FieldText>, now: LocalTimestamp) -> (result: Result<Vec<Overlay>, Error>)
        ensures
            !self.has_image ==> result is Err && result->Err_0.description_text()
                == "No image loaded"@,
            self.has_image ==> match formatted_time(
                "%d.%m.%Y %H:%M:%S"@,
                now.secs,
                now.offset_secs,
            ) {
                None => result is Err && result->Err_0.description_text()
                    == "Unable to format the time"@,
                Some(time) => result is Ok && result->Ok_0@.len() == PLACES && forall|i: int|
                    0 <= i < PLACES ==> overlays_slot(
                        #[trigger] result->Ok_0@[i],
                        slot(i),
                        fields@,
                        time,
                    ),
            },
    {
        if !self.has_image {
            return Err(Error::from_text("No image loaded"));
        }
        let time = match format_timestamp("%d.%m.%Y %H:%M:%S", now.secs, now.offset_secs) {
            Some(time) => time,
            None => {
                return Err(Error::from_text("Unable to format the time"));
            },
        };
        Ok(overlays(fields, time.as_str()))
    }
}

/// The texts to draw for a snapshot with these fields at the time shown as
/// `time`, in drawing order.
pub fn overlays(fields: &Vec<FieldText>, time: &str) -> (overlays: Vec<Overlay>)
    ensures
        overlays@.len() == PLACES,
        forall|i: int|
            0 <= i < PLACES ==> overlays_slot(#[trigger] overlays@[i], slot(i), fields@, time@),
{
    let mut overlays: Vec<Overlay> = Vec::new();
    let mut i: usize = 0;
    while i < PLACES
        invariant
            i <= PLACES,
            overlays@.len() == i,
            forall|j: int|
                0 <= j < i ==> overlays_slot(#[trigger] overlays@[j], slot(j), fields@, time@),
        decreases PLACES - i,
    {
        let p = placement(i);
        let text = match p.key {
            None => time.to_owned(),
            Some(key) => {
                let key = key.to_owned();
                match find_field(fields, &key) {
                    Some(f) => fields[f].value_with_unit.clone(),
                    None => "---".to_owned(),
                }
            },
        };
        overlays.push(Overlay { text, x: p.x, y: p.y, size: p.size, red: p.red });
        i = i + 1;
    }
    overlays
}

} // verus!
