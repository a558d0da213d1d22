//! The cartridge: the ROM image and the metadata in its header.
use crate::registers::{word, join_bytes};
use vstd::prelude::*;

verus! {

/// Where the header ends: an image shorter than this has no header.
pub const HEADER_END: usize = 0x150;

/// The metadata of a cartridge header.
#[derive(Debug, Clone)]
pub struct RomHeader {
    pub title: String,
    pub type_val: u8,
    pub rom_size: u8,
    pub ram_size: u8,
    pub dest_code: u8,
    pub lic_code: u8,
    pub version: u8,
    pub checksum: u8,
    pub global_checksum: u16,
}

/// Why an image could not be taken as a cartridge.
#[derive(Clone, Copy, Debug, PartialEq, Eq, Structural)]
pub enum CartError {
    /// The image is too small to hold a header.
    MalformedImage { len: usize },
}

pub struct Cart {
    pub filename: String,
    pub rom_data: Vec<u8>,
    pub rom_head: Option<RomHeader>,
}

/// The text that UTF-8 decoding gives for `bytes`, empty when they are not
/// valid UTF-8.
pub uninterp spec fn utf8_text(bytes: Seq<u8>) -> Seq<char>;

/// Relies on `String::from_utf8`: valid UTF-8 is decoded, and bytes below
/// 0x80 decode one character each; anything invalid gives an empty text.
#[verifier::external_body]
fn decode_utf8(bytes: Vec<u8>) -> (r: String)
    ensures
        r@ == utf8_text(bytes@),
        (forall|i: int| 0 <= i < bytes@.len() ==> bytes@[i] < 0x80) ==> r@ == Seq::new(
            bytes@.len(),
            |i: int| bytes@[i] as char,
        ),
{
    String::from_utf8(bytes).unwrap_or_default()
}

/// `s` without its trailing zero bytes.
pub open spec fn trim_nul(s: Seq<u8>) -> Seq<u8>
    decreases s.len(),
{
    if s.len() > 0 && s.last() == 0 {
        trim_nul(s.drop_last())
    } else {
        s
    }
}

/// `h` is the header that `rom` holds: each field is its byte (the global
/// checksum big-endian) and the title is the decoded title field.
pub open spec fn header_of(h: RomHeader, rom: Seq<u8>) -> bool {
    &&& h.title@ == utf8_text(title_bytes(rom))
    &&& h.type_val == rom[0x147]
    &&& h.rom_size == rom[0x148]
    &&& h.ram_size == rom[0x149]
    &&& h.dest_code == rom[0x14A]
    &&& h.lic_code == rom[0x14B]
    &&& h.version == rom[0x14C]
    &&& h.checksum == rom[0x14D]
    &&& h.global_checksum == word(rom[0x14E], rom[0x14F])
}

/// The title field of a header: bytes 0x134 to 0x143 without trailing NULs.
pub open spec fn title_bytes(rom: Seq<u8>) -> Seq<u8> {
    trim_nul(rom.subrange(0x134, 0x144))
}

pub open spec fn rom_size_text(code: u8) -> Seq<char> {
    if code == 0x00 {
        "32KB"@
    } else if code == 0x01 {
        "64KB"@
    } else if code == 0x02 {
        "128KB"@
    } else if code == 0x03 {
        "256KB"@
    } else if code == 0x04 {
        "512KB"@
    } else if code == 0x05 {
        "1MB"@
    } else if code == 0x06 {
        "2MB"@
    } else if code == 0x07 {
        "4MB"@
    } else if code == 0x08 {
        "8MB"@
    } else if code == 0x52 {
        "1.1MB"@
    } else if code == 0x53 {
        "1.2MB"@
    } else if code == 0x54 {
        "1.5MB"@
    } else {
        "Unknown"@
    }
}

pub open spec fn cart_type_text(value: u8) -> Seq<char> {
    if value == 0x00 {
        "ROM ONLY"@
    } else if value == 0x01 {
        "MBC1"@
    } else if value == 0x02 {
        "MBC1 + RAM"@
    } else if value == 0x03 {
        "MBC1 + RAM + BATTERY"@
    } else if value == 0x05 {
        "MBC2"@
    } else if value == 0x06 {
        "MBC2 + BATTERY"@
    } else if value == 0x08 {
        "ROM + RAM"@
    } else if value == 0x09 {
        "ROM + RAM + BATTERY"@
    } else if value == 0x0B {
        "MMM01"@
    } else if value == 0x0C {
        "MMM01 + RAM"@
    } else if value == 0x0D {
        "MMM01 + RAM + BATTERY"@
    } else {
        "UNKOWN"@
    }
}

pub open spec fn license_text(code: u8) -> Seq<char> {
    if code == 0x00 {
        "None"@
    } else if code == 0x01 {
        "Nintendo"@
    } else if code == 0x08 {
        "Capcom"@
    } else if code == 0x09 {
        "Hot-B"@
    } else if code == 0x0A {
        "Jaleco"@
    } else if code == 0x0B {
        "Coconuts Japan"@
    } else if code == 0x0C {
        "Elite Systems"@
    } else if code == 0x13 {
        "EA (Electronic Arts)"@
    } else if code == 0x18 {
        "Hudson Soft"@
    } else if code == 0x19 {
        "ITC Entertainment"@
    } else if code == 0x1A {
        "Yanoman"@
    } else if code == 0x1D {
        "Japan Clary"@
    } else if code == 0x1F {
        "Virgin Interactive"@
    } else if code == 0x24 {
        "PCM Complete"@
    } else if code == 0x25 {
        "San-X"@
    } else if code == 0x28 {
        "Kotobuki Systems"@
    } else if code == 0x29 {
        "Seta"@
    } else if code == 0x30 {
        "Infogrames"@
    } else if code == 0x31 {
        "Nintendo"@
    } else if code == 0x32 {
        "Bandai"@
    } else if code == 0x33 {
        "Check New Licensee Code"@
    } else if code == 0x34 {
        "Konami"@
    } else if code == 0x35 {
        "HectorSoft"@
    } else if code == 0x38 {
        "Capcom"@
    } else if code == 0x39 {
        "Banpresto"@
    } else if code == 0x3C {
        "Entertainment i"@
    } else if code == 0x3E {
        "Gremlin"@
    } else if code == 0x41 {
        "Ubisoft"@
    } else if code == 0x42 {
        "Atlus"@
    } else if code == 0x44 {
        "Malibu"@
    } else if code == 0x46 {
        "Angel"@
    } else if code == 0x47 {
        "Spectrum Holobyte"@
    } else if code == 0x49 {
        "Irem"@
    } else if code == 0x4A {
        "Virgin Games"@
    } else if code == 0x4D {
        "Malibu"@
    } else if code == 0x4F {
        "U.S. Gold"@
    } else if code == 0x50 {
        "Absolute"@
    } else if code == 0x51 {
        "Acclaim"@
    } else if code == 0x52 {
        "Activision"@
    } else if code == 0x53 {
        "American Sammy"@
    } else if code == 0x54 {
        "Konami"@
    } else if code == 0x55 {
        "Hi Tech"@
    } else if code == 0x56 {
        "LJN"@
    } else if code == 0x57 {
        "Matchbox"@
    } else if code == 0x59 {
        "Milton Bradley"@
    } else if code == 0x5A {
        "Mindscape"@
    } else if code == 0x5B {
        "Romstar"@
    } else if code == 0x5C {
        "Naxat Soft"@
    } else if code == 0x5D {
        "Tradewest"@
    } else if code == 0x60 {
        "Titus"@
    } else if code == 0x61 {
        "Virgin"@
    } else if code == 0x67 {
        "Ocean"@
    } else if code == 0x69 {
        "EA (Electronic Arts)"@
    } else if code == 0x6E {
        "Elite Systems"@
    } else if code == 0x6F {
        "Electro Brain"@
    } else if code == 0x70 {
        "Infogrames"@
    } else if code == 0x71 {
        "Interplay"@
    } else if code == 0x72 {
        "Broderbund"@
    } else if code == 0x73 {
        "Sculptered Soft"@
    } else if code == 0x75 {
        "The Sales Curve"@
    } else if code == 0x78 {
        "THQ"@
    } else if code == 0x79 {
        "Accolade"@
    } else if code == 0x7A {
        "Triffix Entertainment"@
    } else if code == 0x7C {
        "Microprose"@
    } else if code == 0x7F {
        "Kemco"@
    } else if code == 0x80 {
        "Misawa Entertainment"@
    } else if code == 0x83 {
        "Lozc"@
    } else if code == 0x86 {
        "Tokuma Shoten"@
    } else if code == 0x8B {
        "Bullet-Proof Software"@
    } else if code == 0x8C {
        "Vic Tokai"@
    } else if code == 0x8E {
        "Ape"@
    } else if code == 0x8F {
        "I'Max"@
    } else if code == 0x91 {
        "Chun Soft"@
    } else if code == 0x92 {
        "Video System"@
    } else if code == 0x93 {
        "Tsuburava"@
    } else if code == 0x95 {
        "Varie"@
    } else if code == 0x96 {
        "Yonezawa/S'Pal"@
    } else if code == 0x97 {
        "Kaneko"@
    } else if code == 0x99 {
        "Pack-In-Video"@
    } else if code == 0x9A {
        "Nichibutsu"@
    } else if code == 0x9B {
        "Tecmo"@
    } else if code == 0x9C {
        "Imagineer"@
    } else if code == 0xA4 {
        "Konami (Yu-Gi-Oh!)"@
    } else if code == 0xA6 {
        "Kawada"@
    } else if code == 0xA7 {
        "Takara"@
    } else if code == 0xA9 {
        "Technos Japan"@
    } else if code == 0xAA {
        "Broderbund"@
    } else if code == 0xAC {
        "Toei Animation"@
    } else if code == 0xAD {
        "Toho"@
    } else if code == 0xAF {
        "Namco"@
    } else if code == 0xB0 {
        "Acclaim"@
    } else if code == 0xB1 {
        "ASCII or Nexoft"@
    } else if code == 0xB2 {
        "Bandai"@
    } else if code == 0xB4 {
        "Enix"@
    } else if code == 0xB6 {
        "HAL Laboratory"@
    } else if code == 0xB7 {
        "SNK"@
    } else if code == 0xB9 {
        "Pony Canyon"@
    } else if code == 0xBA {
        "Culture Brain"@
    } else if code == 0xBB {
        "Sunsoft"@
    } else if code == 0xBD {
        "Sony Imagesoft"@
    } else if code == 0xBF {
        "Sammy"@
    } else if code == 0xC0 {
        "Taito"@
    } else if code == 0xC2 {
        "Kemco"@
    } else if code == 0xC3 {
        "Squaresoft"@
    } else if code == 0xC4 {
        "Tokuma Shoten Intermedia"@
    } else if code == 0xC5 {
        "Data East"@
    } else if code == 0xC6 {
        "Tonkin House"@
    } else if code == 0xC8 {
        "Koei"@
    } else if code == 0xC9 {
        "UFL"@
    } else if code == 0xCA {
        "Ultra"@
    } else if code == 0xCB {
        "Vap"@
    } else if code == 0xCC {
        "Use Co., Ltd."@
    } else if code == 0xCD {
        "Meldac"@
    } else if code == 0xCE {
        "Pony Canyon or"@
    } else if code == 0xCF {
        "Angel"@
    } else if code == 0xD0 {
        "Taito"@
    } else if code == 0xD1 {
        "Sofel"@
    } else if code == 0xD2 {
        "Quest"@
    } else if code == 0xD3 {
        "Sigma Enterprises"@
    } else if code == 0xD4 {
        "Ask Kodansha"@
    } else if code == 0xD6 {
        "Naxat Soft"@
    } else if code == 0xD7 {
        "Copya Systems"@
    } else if code == 0xD9 {
        "Banpresto"@
    } else if code == 0xDA {
        "Tomy"@
    } else if code == 0xDB {
        "LJN"@
    } else if code == 0xDD {
        "NCS"@
    } else if code == 0xDE {
        "Human"@
    } else if code == 0xDF {
        "Altron"@
    } else if code == 0xE0 {
        "Jaleco"@
    } else if code == 0xE1 {
        "Towachiki"@
    } else if code == 0xE2 {
        "Uutaka"@
    } else if code == 0xE5 {
        "Epoch"@
    } else if code == 0xE7 {
        "Athena"@
    } else if code == 0xE8 {
        "Asmik"@
    } else if code == 0xE9 {
        "Natsume"@
    } else if code == 0xEA {
        "King Records"@
    } else if code == 0xEB {
        "Atlus"@
    } else if code == 0xEC {
        "Epic/Sony Records"@
    } else if code == 0xEE {
        "IGS"@
    } else if code == 0xF0 {
        "A Wave"@
    } else if code == 0xF3 {
        "Extreme Entertainment"@
    } else if code == 0xFF {
        "LJN"@
    } else {
        "Unknown"@
    }
}

/// The title bytes of `rom`: its bytes 0x134 to 0x143 without the trailing
/// zero bytes.
fn title_field(rom: &[u8]) -> (r: Vec<u8>)
    requires
        rom@.len() >= HEADER_END,
    ensures
        r@ == title_bytes(rom@),
{
    let ghost field = rom@.subrange(0x134, 0x144);
    let mut end: usize = 0x144;
    while end > 0x134 && rom[end - 1] == 0
        invariant
            0x134 <= end <= 0x144,
            rom@.len() >= HEADER_END,
            trim_nul(rom@.subrange(0x134, end as int)) == trim_nul(field),
        decreases end,
    {
        assert(rom@.subrange(0x134, end as int).drop_last() =~= rom@.subrange(0x134, end - 1));
        end = end - 1;
    }
    let mut title: Vec<u8> = Vec::new();
    let mut i: usize = 0x134;
    while i < end
        invariant
            0x134 <= i <= end <= 0x144,
            rom@.len() >= HEADER_END,
            title@ =~= rom@.subrange(0x134, i as int),
        decreases end - i,
    {
        title.push(rom[i]);
        i = i + 1;
    }
    assert(trim_nul(rom@.subrange(0x134, end as int)) == rom@.subrange(0x134, end as int));
    title
}

impl Cart {
    /// A cartridge with no image loaded.
    pub fn new() -> (r: Cart)
        ensures
            r.filename@ == "none"@,
            r.rom_data@.len() == 0,
            r.rom_head is None,
    {
        Cart { filename: "none".to_owned(), rom_data: Vec::new(), rom_head: None }
    }

    /// The ROM size that a header size code stands for.
    pub fn rom_size_bytes(code: u8) -> (r: &'static str)
        ensures
            r@ == rom_size_text(code),
    {
        match code {
            0x00 => "32KB",
            0x01 => "64KB",
            0x02 => "128KB",
            0x03 => "256KB",
            0x04 => "512KB",
            0x05 => "1MB",
            0x06 => "2MB",
            0x07 => "4MB",
            0x08 => "8MB",
            0x52 => "1.1MB",
            0x53 => "1.2MB",
            0x54 => "1.5MB",
            _ => "Unknown",
        }
    }

    /// The name of a cartridge type code.
    pub fn cart_type_name(value: u8) -> (r: &'static str)
        ensures
            r@ == cart_type_text(value),
    {
        match value {
            0x00 => "ROM ONLY",
            0x01 => "MBC1",
            0x02 => "MBC1 + RAM",
            0x03 => "MBC1 + RAM + BATTERY",
            0x05 => "MBC2",
            0x06 => "MBC2 + BATTERY",
            0x08 => "ROM + RAM",
            0x09 => "ROM + RAM + BATTERY",
            0x0B => "MMM01",
            0x0C => "MMM01 + RAM",
            0x0D => "MMM01 + RAM + BATTERY",
            _ => "UNKOWN",
        }
    }

    /// The licensee that an old licensee code names.
    pub fn license_name(code: u8) -> (r: &'static str)
        ensures
            r@ == license_text(code),
    {
        match code {
            0x00 => "None",
            0x01 => "Nintendo",
            0x08 => "Capcom",
            0x09 => "Hot-B",
            0x0A => "Jaleco",
            0x0B => "Coconuts Japan",
            0x0C => "Elite Systems",
            0x13 => "EA (Electronic Arts)",
            0x18 => "Hudson Soft",
            0x19 => "ITC Entertainment",
            0x1A => "Yanoman",
            0x1D => "Japan Clary",
            0x1F => "Virgin Interactive",
            0x24 => "PCM Complete",
            0x25 => "San-X",
            0x28 => "Kotobuki Systems",
            0x29 => "Seta",
            0x30 => "Infogrames",
            0x31 => "Nintendo",
            0x32 => "Bandai",
            0x33 => "Check New Licensee Code",
            0x34 => "Konami",
            0x35 => "HectorSoft",
            0x38 => "Capcom",
            0x39 => "Banpresto",
            0x3C => "Entertainment i",
            0x3E => "Gremlin",
            0x41 => "Ubisoft",
            0x42 => "Atlus",
            0x44 => "Malibu",
            0x46 => "Angel",
            0x47 => "Spectrum Holobyte",
            0x49 => "Irem",
            0x4A => "Virgin Games",
            0x4D => "Malibu",
            0x4F => "U.S. Gold",
            0x50 => "Absolute",
            0x51 => "Acclaim",
            0x52 => "Activision",
            0x53 => "American Sammy",
            0x54 => "Konami",
            0x55 => "Hi Tech",
            0x56 => "LJN",
            0x57 => "Matchbox",
            0x59 => "Milton Bradley",
            0x5A => "Mindscape",
            0x5B => "Romstar",
            0x5C => "Naxat Soft",
            0x5D => "Tradewest",
            0x60 => "Titus",
            0x61 => "Virgin",
            0x67 => "Ocean",
            0x69 => "EA (Electronic Arts)",
            0x6E => "Elite Systems",
            0x6F => "Electro Brain",
            0x70 => "Infogrames",
            0x71 => "Interplay",
            0x72 => "Broderbund",
            0x73 => "Sculptered Soft",
            0x75 => "The Sales Curve",
            0x78 => "THQ",
            0x79 => "Accolade",
            0x7A => "Triffix Entertainment",
            0x7C => "Microprose",
            0x7F => "Kemco",
            0x80 => "Misawa Entertainment",
            0x83 => "Lozc",
            0x86 => "Tokuma Shoten",
            0x8B => "Bullet-Proof Software",
            0x8C => "Vic Tokai",
            0x8E => "Ape",
            0x8F => "I'Max",
            0x91 => "Chun Soft",
            0x92 => "Video System",
            0x93 => "Tsuburava",
            0x95 => "Varie",
            0x96 => "Yonezawa/S'Pal",
            0x97 => "Kaneko",
            0x99 => "Pack-In-Video",
            0x9A => "Nichibutsu",
            0x9B => "Tecmo",
            0x9C => "Imagineer",
            0xA4 => "Konami (Yu-Gi-Oh!)",
            0xA6 => "Kawada",
            0xA7 => "Takara",
            0xA9 => "Technos Japan",
            0xAA => "Broderbund",
            0xAC => "Toei Animation",
            0xAD => "Toho",
            0xAF => "Namco",
            0xB0 => "Acclaim",
            0xB1 => "ASCII or Nexoft",
            0xB2 => "Bandai",
            0xB4 => "Enix",
            0xB6 => "HAL Laboratory",
            0xB7 => "SNK",
            0xB9 => "Pony Canyon",
            0xBA => "Culture Brain",
            0xBB => "Sunsoft",
            0xBD => "Sony Imagesoft",
            0xBF => "Sammy",
            0xC0 => "Taito",
            0xC2 => "Kemco",
            0xC3 => "Squaresoft",
            0xC4 => "Tokuma Shoten Intermedia",
            0xC5 => "Data East",
            0xC6 => "Tonkin House",
            0xC8 => "Koei",
            0xC9 => "UFL",
            0xCA => "Ultra",
            0xCB => "Vap",
            0xCC => "Use Co., Ltd.",
            0xCD => "Meldac",
            0xCE => "Pony Canyon or",
            0xCF => "Angel",
            0xD0 => "Taito",
            0xD1 => "Sofel",
            0xD2 => "Quest",
            0xD3 => "Sigma Enterprises",
            0xD4 => "Ask Kodansha",
            0xD6 => "Naxat Soft",
            0xD7 => "Copya Systems",
            0xD9 => "Banpresto",
            0xDA => "Tomy",
            0xDB => "LJN",
            0xDD => "NCS",
            0xDE => "Human",
            0xDF => "Altron",
            0xE0 => "Jaleco",
            0xE1 => "Towachiki",
            0xE2 => "Uutaka",
            0xE5 => "Epoch",
            0xE7 => "Athena",
            0xE8 => "Asmik",
            0xE9 => "Natsume",
            0xEA => "King Records",
            0xEB => "Atlus",
            0xEC => "Epic/Sony Records",
            0xEE => "IGS",
            0xF0 => "A Wave",
            0xF3 => "Extreme Entertainment",
            0xFF => "LJN",
            _ => "Unknown",
        }
    }

    /// Reads the header of a ROM image. An image shorter than the header is
    /// malformed.
    pub fn parse_header(rom: &[u8]) -> (r: Result<RomHeader, CartError>)
        ensures
            rom@.len() < HEADER_END <==> r is Err,
            r is Err ==> r == Err::<RomHeader, CartError>(
                CartError::MalformedImage { len: rom@.len() as usize },
            ),
            r is Ok ==> header_of(r->Ok_0, rom@),
    {
        if rom.len() < HEADER_END {
            return Err(CartError::MalformedImage { len: rom.len() });
        }
        let title = decode_utf8(title_field(rom));
        Ok(RomHeader {
            title,
            type_val: rom[0x147],
            rom_size: rom[0x148],
            ram_size: rom[0x149],
            dest_code: rom[0x14A],
            lic_code: rom[0x14B],
            version: rom[0x14C],
            checksum: rom[0x14D],
            global_checksum: join_bytes(rom[0x14E], rom[0x14F]),
        })
    }

    /// Takes `data` as this cartridge's image and reads its header; an image
    /// too small for a header is refused and nothing changes.
    pub fn load_rom(&mut self, data: Vec<u8>) -> (r: Result<(), CartError>)
        ensures
            data@.len() < HEADER_END <==> r is Err,
            r is Err ==> r == Err::<(), CartError>(
                CartError::MalformedImage { len: data@.len() as usize },
            ),
            r is Err ==> final(self).rom_data == old(self).rom_data && final(self).rom_head
                == old(self).rom_head,
            r is Ok ==> final(self).rom_data@ == data@ && final(self).rom_head is Some
                && header_of(final(self).rom_head->Some_0, data@),
            final(self).filename == old(self).filename,
    {
        match Cart::parse_header(data.as_slice()) {
            Ok(header) => {
                self.rom_data = data;
                self.rom_head = Some(header);
                Ok(())
            },
            Err(e) => Err(e),
        }
    }
}

} // verus!
