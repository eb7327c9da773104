use vstd::prelude::*;
use vstd::string::*;

verus! {

/// The character of a decimal or hexadecimal digit (upper case).
pub open spec fn digit_char(d: nat) -> char {
    if d < 10 { (48 + d) as char } else { (55 + d) as char }
}

/// `n` written in base `b` (2..16) without leading zeros.
pub open spec fn digits(n: nat, b: nat) -> Seq<char>
    recommends
        2 <= b <= 16,
    decreases n via digits_decreases
{
    if n < b || b < 2 {
        seq![digit_char(n)]
    } else {
        digits(n / b, b) + seq![digit_char(n % b)]
    }
}

#[via_fn]
proof fn digits_decreases(n: nat, b: nat) {
    if !(n < b || b < 2) {
        assert(n / b < n) by (nonlinear_arith)
            requires
                n >= b,
                b >= 2,
        ;
    }
}

/// The characters of ASCII bytes.
pub open spec fn ascii_chars(b: Seq<u8>) -> Seq<char> {
    b.map_values(|x: u8| x as char)
}

fn digit_str(d: usize) -> (r: &'static str)
    requires
        d < 16,
    ensures
        r@ == seq![digit_char(d as nat)],
{
    proof {
        reveal_strlit("0");
        reveal_strlit("1");
        reveal_strlit("2");
        reveal_strlit("3");
        reveal_strlit("4");
        reveal_strlit("5");
        reveal_strlit("6");
        reveal_strlit("7");
        reveal_strlit("8");
        reveal_strlit("9");
        reveal_strlit("A");
        reveal_strlit("B");
        reveal_strlit("C");
        reveal_strlit("D");
        reveal_strlit("E");
        reveal_strlit("F");
    }
    match d {
        0 => "0",
        1 => "1",
        2 => "2",
        3 => "3",
        4 => "4",
        5 => "5",
        6 => "6",
        7 => "7",
        8 => "8",
        9 => "9",
        10 => "A",
        11 => "B",
        12 => "C",
        13 => "D",
        14 => "E",
        _ => "F",
    }
}

/// `n` in base `b`, without leading zeros.
pub fn number_string(n: usize, b: usize) -> (r: String)
    requires
        2 <= b <= 16,
    ensures
        r@ == digits(n as nat, b as nat),
    decreases n,
{
    if n < b {
        String::from_str(digit_str(n))
    } else {
        proof {
            assert(n / b < n) by (nonlinear_arith)
                requires
                    n >= b,
                    b >= 2,
            ;
        }
        let mut s = number_string(n / b, b);
        s.append(digit_str(n % b));
        s
    }
}

/// Relies on `String::from_utf8`: bytes that are all ASCII are valid UTF-8 and give the
/// string of those characters.
#[verifier::external_body]
fn string_from_utf8(bytes: Vec<u8>) -> (r: Option<String>)
    ensures
        (forall|i: int| 0 <= i < bytes@.len() ==> bytes@[i] < 128) ==> r.is_some() && r.unwrap()@ == ascii_chars(bytes@),
{
    String::from_utf8(bytes).ok()
}

/// The end of the title: the first zero byte from `i` on, or `0143`.
pub open spec fn title_end(d: Seq<u8>, i: int) -> int
    decreases 0x143 - i,
{
    if i >= 0x143 || i < 0 || i >= d.len() || d[i] == 0 {
        i
    } else {
        title_end(d, i + 1)
    }
}

/// Header facts of a cartridge image.
pub struct CartridgeInfo {
    pub path: String,
    pub cart_type: u8,
    pub title: String,
    pub licensee: String,
    /// 0 for a cartridge without a controller.
    pub mbc_index: u8,
    pub rom_size: usize,
    pub rom: bool,
    pub rom_bank_count: usize,
    pub ram: bool,
    pub ram_bank_count: usize,
    pub ram_size: usize,
    pub battery: bool,
    pub mmm_01: bool,
    pub timer: bool,
    pub huc_index: u8,
    pub bandai_tama: bool,
    pub pocket_camera: bool,
    pub sensor: bool,
    pub rumble: bool,
}

/// Why a header could not be read.
#[derive(Clone, Copy, Debug, PartialEq, Eq, Structural)]
pub enum HeaderError {
    /// The image ends before the header does.
    TooShort,
    /// The ROM size code is above 8 (8 MiB).
    BadRomSize,
}

/// The header checksum over `0134..=014C`: starting from 0, subtract each byte and 1.
pub open spec fn checksum_upto(d: Seq<u8>, end: int) -> u8
    decreases end - 0x134,
{
    if end <= 0x134 {
        0
    } else {
        ((checksum_upto(d, end - 1) - d[end - 1] - 1 + 512) % 256) as u8
    }
}

/// The controller family of a cartridge type byte (0: none).
pub open spec fn mbc_index_spec(t: u8) -> u8 {
    if 1 <= t <= 3 {
        1
    } else if t == 5 || t == 6 {
        2
    } else if 0x0F <= t <= 0x13 {
        3
    } else if 0x19 <= t <= 0x1E {
        5
    } else if t == 0x20 {
        6
    } else if t == 0x22 {
        7
    } else {
        0
    }
}

/// RAM banks of a RAM size code (0/2/3/4/5 give 0/1/4/16/8 banks of 8 KiB).
pub open spec fn ram_banks_spec(code: u8) -> usize {
    if code == 2 {
        1
    } else if code == 3 {
        4
    } else if code == 4 {
        16
    } else if code == 5 {
        8
    } else {
        0
    }
}

pub open spec fn battery_spec(t: u8) -> bool {
    t == 0x03 || t == 0x06 || t == 0x09 || t == 0x0D || t == 0x0F || t == 0x10 || t == 0x13 || t == 0x1B
        || t == 0x1E || t == 0x22 || t == 0xFF
}

pub open spec fn ram_spec(t: u8) -> bool {
    t == 0x02 || t == 0x03 || t == 0x08 || t == 0x09 || t == 0x0C || t == 0x0D || t == 0x10 || t == 0x12
        || t == 0x13 || t == 0x1A || t == 0x1B || t == 0x1D || t == 0x1E || t == 0x22 || t == 0xFF
}

/// Licensee name of a new (two ASCII digits) licensee code.
pub open spec fn new_licensee_spec(code: u16) -> Seq<char> {
    match code {
        0x3030 => "None"@,
        0x3031 => "Nintendo Research & Development 1"@,
        0x3038 => "Capcom"@,
        0x3133 => "EA (Electronic Arts)"@,
        0x3138 => "Hudson Soft"@,
        0x3139 => "B-AI"@,
        0x3230 => "KSS"@,
        0x3232 => "Planning Office WADA"@,
        0x3234 => "PCM Complete"@,
        0x3235 => "San-X"@,
        0x3238 => "Kemco"@,
        0x3239 => "SETA Corporation"@,
        0x3330 => "Viacom"@,
        0x3331 => "Nintendo"@,
        0x3332 => "Bandai"@,
        0x3333 => "Ocean Software/Acclaim Entertainment"@,
        0x3334 => "Konami"@,
        0x3335 => "HectorSoft"@,
        0x3337 => "Taito"@,
        0x3338 => "Hudson Soft"@,
        0x3339 => "Banpresto"@,
        0x3431 => "Ubi Soft1"@,
        0x3432 => "Atlus"@,
        0x3434 => "Malibu Interactive"@,
        0x3436 => "Angel"@,
        0x3437 => "Bullet-Proof Software2"@,
        0x3439 => "Irem"@,
        0x3530 => "Absolute"@,
        0x3531 => "Acclaim Entertainment"@,
        0x3532 => "Activision"@,
        0x3533 => "Sammy USA Corporation"@,
        0x3534 => "Konami"@,
        0x3535 => "Hi Tech Expressions"@,
        0x3536 => "LJN"@,
        0x3537 => "Matchbox"@,
        0x3538 => "Mattel"@,
        0x3539 => "Milton Bradley Company"@,
        0x3630 => "Titus Interactive"@,
        0x3631 => "Virgin Games Ltd.3"@,
        0x3634 => "Lucasfilm Games4"@,
        0x3637 => "Ocean Software"@,
        0x3639 => "EA (Electronic Arts)"@,
        0x3730 => "Infogrames5"@,
        0x3731 => "Interplay Entertainment"@,
        0x3732 => "Broderbund"@,
        0x3733 => "Sculptured Software6"@,
        0x3735 => "The Sales Curve Limited7"@,
        0x3738 => "THQ"@,
        0x3739 => "Accolade"@,
        0x3830 => "Misawa Entertainment"@,
        0x3833 => "lozc"@,
        0x3836 => "Tokuma Shoten"@,
        0x3837 => "Tsukuda Original"@,
        0x3931 => "Chunsoft Co.8"@,
        0x3932 => "Video System"@,
        0x3933 => "Ocean Software/Acclaim Entertainment"@,
        0x3935 => "Varie"@,
        0x3936 => "Yonezawa/s’pal"@,
        0x3937 => "Kaneko"@,
        0x3939 => "Pack-In-Video"@,
        0x3948 => "Bottom Up"@,
        0x4134 => "Konami (Yu-Gi-Oh!)"@,
        0x424C => "MTO"@,
        0x444B => "Kodansha"@,
        _ => "Unknown"@,
    }
}

#[verifier::rlimit(100)]
#[verifier::spinoff_prover]
fn new_licensee_name(code: u16) -> (r: &'static str)
    ensures
        r@ == new_licensee_spec(code),
{
    proof {
        reveal_strlit("None");
        reveal_strlit("Nintendo Research & Development 1");
        reveal_strlit("Capcom");
        reveal_strlit("EA (Electronic Arts)");
        reveal_strlit("Hudson Soft");
        reveal_strlit("B-AI");
        reveal_strlit("KSS");
        reveal_strlit("Planning Office WADA");
        reveal_strlit("PCM Complete");
        reveal_strlit("San-X");
        reveal_strlit("Kemco");
        reveal_strlit("SETA Corporation");
        reveal_strlit("Viacom");
        reveal_strlit("Nintendo");
        reveal_strlit("Bandai");
        reveal_strlit("Ocean Software/Acclaim Entertainment");
        reveal_strlit("Konami");
        reveal_strlit("HectorSoft");
        reveal_strlit("Taito");
        reveal_strlit("Hudson Soft");
        reveal_strlit("Banpresto");
        reveal_strlit("Ubi Soft1");
        reveal_strlit("Atlus");
        reveal_strlit("Malibu Interactive");
        reveal_strlit("Angel");
        reveal_strlit("Bullet-Proof Software2");
        reveal_strlit("Irem");
        reveal_strlit("Absolute");
        reveal_strlit("Acclaim Entertainment");
        reveal_strlit("Activision");
        reveal_strlit("Sammy USA Corporation");
        reveal_strlit("Konami");
        reveal_strlit("Hi Tech Expressions");
        reveal_strlit("LJN");
        reveal_strlit("Matchbox");
        reveal_strlit("Mattel");
        reveal_strlit("Milton Bradley Company");
        reveal_strlit("Titus Interactive");
        reveal_strlit("Virgin Games Ltd.3");
        reveal_strlit("Lucasfilm Games4");
        reveal_strlit("Ocean Software");
        reveal_strlit("EA (Electronic Arts)");
        reveal_strlit("Infogrames5");
        reveal_strlit("Interplay Entertainment");
        reveal_strlit("Broderbund");
        reveal_strlit("Sculptured Software6");
        reveal_strlit("The Sales Curve Limited7");
        reveal_strlit("THQ");
        reveal_strlit("Accolade");
        reveal_strlit("Misawa Entertainment");
        reveal_strlit("lozc");
        reveal_strlit("Tokuma Shoten");
        reveal_strlit("Tsukuda Original");
        reveal_strlit("Chunsoft Co.8");
        reveal_strlit("Video System");
        reveal_strlit("Ocean Software/Acclaim Entertainment");
        reveal_strlit("Varie");
        reveal_strlit("Yonezawa/s’pal");
        reveal_strlit("Kaneko");
        reveal_strlit("Pack-In-Video");
        reveal_strlit("Bottom Up");
        reveal_strlit("Konami (Yu-Gi-Oh!)");
        reveal_strlit("MTO");
        reveal_strlit("Kodansha");
        reveal_strlit("Unknown");
    }
    match code {
        0x3030 => "None",
        0x3031 => "Nintendo Research & Development 1",
        0x3038 => "Capcom",
        0x3133 => "EA (Electronic Arts)",
        0x3138 => "Hudson Soft",
        0x3139 => "B-AI",
        0x3230 => "KSS",
        0x3232 => "Planning Office WADA",
        0x3234 => "PCM Complete",
        0x3235 => "San-X",
        0x3238 => "Kemco",
        0x3239 => "SETA Corporation",
        0x3330 => "Viacom",
        0x3331 => "Nintendo",
        0x3332 => "Bandai",
        0x3333 => "Ocean Software/Acclaim Entertainment",
        0x3334 => "Konami",
        0x3335 => "HectorSoft",
        0x3337 => "Taito",
        0x3338 => "Hudson Soft",
        0x3339 => "Banpresto",
        0x3431 => "Ubi Soft1",
        0x3432 => "Atlus",
        0x3434 => "Malibu Interactive",
        0x3436 => "Angel",
        0x3437 => "Bullet-Proof Software2",
        0x3439 => "Irem",
        0x3530 => "Absolute",
        0x3531 => "Acclaim Entertainment",
        0x3532 => "Activision",
        0x3533 => "Sammy USA Corporation",
        0x3534 => "Konami",
        0x3535 => "Hi Tech Expressions",
        0x3536 => "LJN",
        0x3537 => "Matchbox",
        0x3538 => "Mattel",
        0x3539 => "Milton Bradley Company",
        0x3630 => "Titus Interactive",
        0x3631 => "Virgin Games Ltd.3",
        0x3634 => "Lucasfilm Games4",
        0x3637 => "Ocean Software",
        0x3639 => "EA (Electronic Arts)",
        0x3730 => "Infogrames5",
        0x3731 => "Interplay Entertainment",
        0x3732 => "Broderbund",
        0x3733 => "Sculptured Software6",
        0x3735 => "The Sales Curve Limited7",
        0x3738 => "THQ",
        0x3739 => "Accolade",
        0x3830 => "Misawa Entertainment",
        0x3833 => "lozc",
        0x3836 => "Tokuma Shoten",
        0x3837 => "Tsukuda Original",
        0x3931 => "Chunsoft Co.8",
        0x3932 => "Video System",
        0x3933 => "Ocean Software/Acclaim Entertainment",
        0x3935 => "Varie",
        0x3936 => "Yonezawa/s’pal",
        0x3937 => "Kaneko",
        0x3939 => "Pack-In-Video",
        0x3948 => "Bottom Up",
        0x4134 => "Konami (Yu-Gi-Oh!)",
        0x424C => "MTO",
        0x444B => "Kodansha",
        _ => "Unknown",
    }
}

/// Licensee name of a old licensee code.
pub open spec fn old_licensee_spec(code: u8) -> Seq<char> {
    match code {
        0x00 => "None"@,
        0x01 => "Nintendo"@,
        0x08 => "Capcom"@,
        0x09 => "HOT-B"@,
        0x0A => "Jaleco"@,
        0x0B => "Coconuts Japan"@,
        0x0C => "Elite Systems"@,
        0x13 => "EA (Electronic Arts)"@,
        0x18 => "Hudson Soft"@,
        0x19 => "ITC Entertainment"@,
        0x1A => "Yanoman"@,
        0x1D => "Japan Clary"@,
        0x1F => "Virgin Games Ltd.3"@,
        0x24 => "PCM Complete"@,
        0x25 => "San-X"@,
        0x28 => "Kemco"@,
        0x29 => "SETA Corporation"@,
        0x30 => "Infogrames5"@,
        0x31 => "Nintendo"@,
        0x32 => "Bandai"@,
        0x33 => "NEW_LICENSEE"@,
        0x34 => "Konami"@,
        0x35 => "HectorSoft"@,
        0x38 => "Capcom"@,
        0x39 => "Banpresto"@,
        0x3C => ".Entertainment i"@,
        0x3E => "Gremlin"@,
        0x41 => "Ubi Soft1"@,
        0x42 => "Atlus"@,
        0x44 => "Malibu Interactive"@,
        0x46 => "Angel"@,
        0x47 => "Spectrum Holoby"@,
        0x49 => "Irem"@,
        0x4A => "Virgin Games Ltd.3"@,
        0x4D => "Malibu Interactive"@,
        0x4F => "U.S. Gold"@,
        0x50 => "Absolute"@,
        0x51 => "Acclaim Entertainment"@,
        0x52 => "Activision"@,
        0x53 => "Sammy USA Corporation"@,
        0x54 => "GameTek"@,
        0x55 => "Park Place"@,
        0x56 => "LJN"@,
        0x57 => "Matchbox"@,
        0x59 => "Milton Bradley Company"@,
        0x5A => "Mindscape"@,
        0x5B => "Romstar"@,
        0x5C => "Naxat Soft13"@,
        0x5D => "Tradewest"@,
        0x60 => "Titus Interactive"@,
        0x61 => "Virgin Games Ltd.3"@,
        0x67 => "Ocean Software"@,
        0x69 => "EA (Electronic Arts)"@,
        0x6E => "Elite Systems"@,
        0x6F => "Electro Brain"@,
        0x70 => "Infogrames5"@,
        0x71 => "Interplay Entertainment"@,
        0x72 => "Broderbund"@,
        0x73 => "Sculptured Software6"@,
        0x75 => "The Sales Curve Limited7"@,
        0x78 => "THQ"@,
        0x79 => "Accolade"@,
        0x7A => "Triffix Entertainment"@,
        0x7C => "Microprose"@,
        0x7F => "Kemco"@,
        0x80 => "Misawa Entertainment"@,
        0x83 => "Lozc"@,
        0x86 => "Tokuma Shoten"@,
        0x8B => "Bullet-Proof Software2"@,
        0x8C => "Vic Tokai"@,
        0x8E => "Ape"@,
        0x8F => "I’Max"@,
        0x91 => "Chunsoft Co.8"@,
        0x92 => "Video System"@,
        0x93 => "Tsubaraya Productions"@,
        0x95 => "Varie"@,
        0x96 => "Yonezawa/S’Pal"@,
        0x97 => "Kemco"@,
        0x99 => "Arc"@,
        0x9A => "Nihon Bussan"@,
        0x9B => "Tecmo"@,
        0x9C => "Imagineer"@,
        0x9D => "Banpresto"@,
        0x9F => "Nova"@,
        0xA1 => "Hori Electric"@,
        0xA2 => "Bandai"@,
        0xA4 => "Konami"@,
        0xA6 => "Kawada"@,
        0xA7 => "Takara"@,
        0xA9 => "Technos Japan"@,
        0xAA => "Broderbund"@,
        0xAC => "Toei Animation"@,
        0xAD => "Toho"@,
        0xAF => "Namco"@,
        0xB0 => "Acclaim Entertainment"@,
        0xB1 => "ASCII Corporation or Nexsoft"@,
        0xB2 => "Bandai"@,
        0xB4 => "Square Enix"@,
        0xB6 => "HAL Laboratory"@,
        0xB7 => "SNK"@,
        0xB9 => "Pony Canyon"@,
        0xBA => "Culture Brain"@,
        0xBB => "Sunsoft"@,
        0xBD => "Sony Imagesoft"@,
        0xBF => "Sammy Corporation"@,
        0xC0 => "Taito"@,
        0xC2 => "Kemco"@,
        0xC3 => "Square"@,
        0xC4 => "Tokuma Shoten"@,
        0xC5 => "Data East"@,
        0xC6 => "Tonkinhouse"@,
        0xC8 => "Koei"@,
        0xC9 => "UFL"@,
        0xCA => "Ultra"@,
        0xCB => "Vap"@,
        0xCC => "Use Corporation"@,
        0xCD => "Meldac"@,
        0xCE => "Pony Canyon"@,
        0xCF => "Angel"@,
        0xD0 => "Taito"@,
        0xD1 => "Sofel"@,
        0xD2 => "Quest"@,
        0xD3 => "Sigma Enterprises"@,
        0xD4 => "ASK Kodansha Co."@,
        0xD6 => "Naxat Soft13"@,
        0xD7 => "Copya System"@,
        0xD9 => "Banpresto"@,
        0xDA => "Tomy"@,
        0xDB => "LJN"@,
        0xDD => "NCS"@,
        0xDE => "Human"@,
        0xDF => "Altron"@,
        0xE0 => "Jaleco"@,
        0xE1 => "Towa Chiki"@,
        0xE2 => "Yutaka"@,
        0xE3 => "Varie"@,
        0xE5 => "Epcoh"@,
        0xE7 => "Athena"@,
        0xE8 => "Asmik Ace Entertainment"@,
        0xE9 => "Natsume"@,
        0xEA => "King Records"@,
        0xEB => "Atlus"@,
        0xEC => "Epic/Sony Records"@,
        0xEE => "IGS"@,
        0xF0 => "A Wave"@,
        0xF3 => "Extreme Entertainment"@,
        0xFF => "LJN"@,
        _ => "Unknown"@,
    }
}

#[verifier::rlimit(100)]
#[verifier::spinoff_prover]
fn old_licensee_name(code: u8) -> (r: &'static str)
    ensures
        r@ == old_licensee_spec(code),
{
    proof {
        reveal_strlit("None");
        reveal_strlit("Nintendo");
        reveal_strlit("Capcom");
        reveal_strlit("HOT-B");
        reveal_strlit("Jaleco");
        reveal_strlit("Coconuts Japan");
        reveal_strlit("Elite Systems");
        reveal_strlit("EA (Electronic Arts)");
        reveal_strlit("Hudson Soft");
        reveal_strlit("ITC Entertainment");
        reveal_strlit("Yanoman");
        reveal_strlit("Japan Clary");
        reveal_strlit("Virgin Games Ltd.3");
        reveal_strlit("PCM Complete");
        reveal_strlit("San-X");
        reveal_strlit("Kemco");
        reveal_strlit("SETA Corporation");
        reveal_strlit("Infogrames5");
        reveal_strlit("Nintendo");
        reveal_strlit("Bandai");
        reveal_strlit("NEW_LICENSEE");
        reveal_strlit("Konami");
        reveal_strlit("HectorSoft");
        reveal_strlit("Capcom");
        reveal_strlit("Banpresto");
        reveal_strlit(".Entertainment i");
        reveal_strlit("Gremlin");
        reveal_strlit("Ubi Soft1");
        reveal_strlit("Atlus");
        reveal_strlit("Malibu Interactive");
        reveal_strlit("Angel");
        reveal_strlit("Spectrum Holoby");
        reveal_strlit("Irem");
        reveal_strlit("Virgin Games Ltd.3");
        reveal_strlit("Malibu Interactive");
        reveal_strlit("U.S. Gold");
        reveal_strlit("Absolute");
        reveal_strlit("Acclaim Entertainment");
        reveal_strlit("Activision");
        reveal_strlit("Sammy USA Corporation");
        reveal_strlit("GameTek");
        reveal_strlit("Park Place");
        reveal_strlit("LJN");
        reveal_strlit("Matchbox");
        reveal_strlit("Milton Bradley Company");
        reveal_strlit("Mindscape");
        reveal_strlit("Romstar");
        reveal_strlit("Naxat Soft13");
        reveal_strlit("Tradewest");
        reveal_strlit("Titus Interactive");
        reveal_strlit("Virgin Games Ltd.3");
        reveal_strlit("Ocean Software");
        reveal_strlit("EA (Electronic Arts)");
        reveal_strlit("Elite Systems");
        reveal_strlit("Electro Brain");
        reveal_strlit("Infogrames5");
        reveal_strlit("Interplay Entertainment");
        reveal_strlit("Broderbund");
        reveal_strlit("Sculptured Software6");
        reveal_strlit("The Sales Curve Limited7");
        reveal_strlit("THQ");
        reveal_strlit("Accolade");
        reveal_strlit("Triffix Entertainment");
        reveal_strlit("Microprose");
        reveal_strlit("Kemco");
        reveal_strlit("Misawa Entertainment");
        reveal_strlit("Lozc");
        reveal_strlit("Tokuma Shoten");
        reveal_strlit("Bullet-Proof Software2");
        reveal_strlit("Vic Tokai");
        reveal_strlit("Ape");
        reveal_strlit("I’Max");
        reveal_strlit("Chunsoft Co.8");
        reveal_strlit("Video System");
        reveal_strlit("Tsubaraya Productions");
        reveal_strlit("Varie");
        reveal_strlit("Yonezawa/S’Pal");
        reveal_strlit("Kemco");
        reveal_strlit("Arc");
        reveal_strlit("Nihon Bussan");
        reveal_strlit("Tecmo");
        reveal_strlit("Imagineer");
        reveal_strlit("Banpresto");
        reveal_strlit("Nova");
        reveal_strlit("Hori Electric");
        reveal_strlit("Bandai");
        reveal_strlit("Konami");
        reveal_strlit("Kawada");
        reveal_strlit("Takara");
        reveal_strlit("Technos Japan");
        reveal_strlit("Broderbund");
        reveal_strlit("Toei Animation");
        reveal_strlit("Toho");
        reveal_strlit("Namco");
        reveal_strlit("Acclaim Entertainment");
        reveal_strlit("ASCII Corporation or Nexsoft");
        reveal_strlit("Bandai");
        reveal_strlit("Square Enix");
        reveal_strlit("HAL Laboratory");
        reveal_strlit("SNK");
        reveal_strlit("Pony Canyon");
        reveal_strlit("Culture Brain");
        reveal_strlit("Sunsoft");
        reveal_strlit("Sony Imagesoft");
        reveal_strlit("Sammy Corporation");
        reveal_strlit("Taito");
        reveal_strlit("Kemco");
        reveal_strlit("Square");
        reveal_strlit("Tokuma Shoten");
        reveal_strlit("Data East");
        reveal_strlit("Tonkinhouse");
        reveal_strlit("Koei");
        reveal_strlit("UFL");
        reveal_strlit("Ultra");
        reveal_strlit("Vap");
        reveal_strlit("Use Corporation");
        reveal_strlit("Meldac");
        reveal_strlit("Pony Canyon");
        reveal_strlit("Angel");
        reveal_strlit("Taito");
        reveal_strlit("Sofel");
        reveal_strlit("Quest");
        reveal_strlit("Sigma Enterprises");
        reveal_strlit("ASK Kodansha Co.");
        reveal_strlit("Naxat Soft13");
        reveal_strlit("Copya System");
        reveal_strlit("Banpresto");
        reveal_strlit("Tomy");
        reveal_strlit("LJN");
        reveal_strlit("NCS");
        reveal_strlit("Human");
        reveal_strlit("Altron");
        reveal_strlit("Jaleco");
        reveal_strlit("Towa Chiki");
        reveal_strlit("Yutaka");
        reveal_strlit("Varie");
        reveal_strlit("Epcoh");
        reveal_strlit("Athena");
        reveal_strlit("Asmik Ace Entertainment");
        reveal_strlit("Natsume");
        reveal_strlit("King Records");
        reveal_strlit("Atlus");
        reveal_strlit("Epic/Sony Records");
        reveal_strlit("IGS");
        reveal_strlit("A Wave");
        reveal_strlit("Extreme Entertainment");
        reveal_strlit("LJN");
        reveal_strlit("Unknown");
    }
    match code {
        0x00 => "None",
        0x01 => "Nintendo",
        0x08 => "Capcom",
        0x09 => "HOT-B",
        0x0A => "Jaleco",
        0x0B => "Coconuts Japan",
        0x0C => "Elite Systems",
        0x13 => "EA (Electronic Arts)",
        0x18 => "Hudson Soft",
        0x19 => "ITC Entertainment",
        0x1A => "Yanoman",
        0x1D => "Japan Clary",
        0x1F => "Virgin Games Ltd.3",
        0x24 => "PCM Complete",
        0x25 => "San-X",
        0x28 => "Kemco",
        0x29 => "SETA Corporation",
        0x30 => "Infogrames5",
        0x31 => "Nintendo",
        0x32 => "Bandai",
        0x33 => "NEW_LICENSEE",
        0x34 => "Konami",
        0x35 => "HectorSoft",
        0x38 => "Capcom",
        0x39 => "Banpresto",
        0x3C => ".Entertainment i",
        0x3E => "Gremlin",
        0x41 => "Ubi Soft1",
        0x42 => "Atlus",
        0x44 => "Malibu Interactive",
        0x46 => "Angel",
        0x47 => "Spectrum Holoby",
        0x49 => "Irem",
        0x4A => "Virgin Games Ltd.3",
        0x4D => "Malibu Interactive",
        0x4F => "U.S. Gold",
        0x50 => "Absolute",
        0x51 => "Acclaim Entertainment",
        0x52 => "Activision",
        0x53 => "Sammy USA Corporation",
        0x54 => "GameTek",
        0x55 => "Park Place",
        0x56 => "LJN",
        0x57 => "Matchbox",
        0x59 => "Milton Bradley Company",
        0x5A => "Mindscape",
        0x5B => "Romstar",
        0x5C => "Naxat Soft13",
        0x5D => "Tradewest",
        0x60 => "Titus Interactive",
        0x61 => "Virgin Games Ltd.3",
        0x67 => "Ocean Software",
        0x69 => "EA (Electronic Arts)",
        0x6E => "Elite Systems",
        0x6F => "Electro Brain",
        0x70 => "Infogrames5",
        0x71 => "Interplay Entertainment",
        0x72 => "Broderbund",
        0x73 => "Sculptured Software6",
        0x75 => "The Sales Curve Limited7",
        0x78 => "THQ",
        0x79 => "Accolade",
        0x7A => "Triffix Entertainment",
        0x7C => "Microprose",
        0x7F => "Kemco",
        0x80 => "Misawa Entertainment",
        0x83 => "Lozc",
        0x86 => "Tokuma Shoten",
        0x8B => "Bullet-Proof Software2",
        0x8C => "Vic Tokai",
        0x8E => "Ape",
        0x8F => "I’Max",
        0x91 => "Chunsoft Co.8",
        0x92 => "Video System",
        0x93 => "Tsubaraya Productions",
        0x95 => "Varie",
        0x96 => "Yonezawa/S’Pal",
        0x97 => "Kemco",
        0x99 => "Arc",
        0x9A => "Nihon Bussan",
        0x9B => "Tecmo",
        0x9C => "Imagineer",
        0x9D => "Banpresto",
        0x9F => "Nova",
        0xA1 => "Hori Electric",
        0xA2 => "Bandai",
        0xA4 => "Konami",
        0xA6 => "Kawada",
        0xA7 => "Takara",
        0xA9 => "Technos Japan",
        0xAA => "Broderbund",
        0xAC => "Toei Animation",
        0xAD => "Toho",
        0xAF => "Namco",
        0xB0 => "Acclaim Entertainment",
        0xB1 => "ASCII Corporation or Nexsoft",
        0xB2 => "Bandai",
        0xB4 => "Square Enix",
        0xB6 => "HAL Laboratory",
        0xB7 => "SNK",
        0xB9 => "Pony Canyon",
        0xBA => "Culture Brain",
        0xBB => "Sunsoft",
        0xBD => "Sony Imagesoft",
        0xBF => "Sammy Corporation",
        0xC0 => "Taito",
        0xC2 => "Kemco",
        0xC3 => "Square",
        0xC4 => "Tokuma Shoten",
        0xC5 => "Data East",
        0xC6 => "Tonkinhouse",
        0xC8 => "Koei",
        0xC9 => "UFL",
        0xCA => "Ultra",
        0xCB => "Vap",
        0xCC => "Use Corporation",
        0xCD => "Meldac",
        0xCE => "Pony Canyon",
        0xCF => "Angel",
        0xD0 => "Taito",
        0xD1 => "Sofel",
        0xD2 => "Quest",
        0xD3 => "Sigma Enterprises",
        0xD4 => "ASK Kodansha Co.",
        0xD6 => "Naxat Soft13",
        0xD7 => "Copya System",
        0xD9 => "Banpresto",
        0xDA => "Tomy",
        0xDB => "LJN",
        0xDD => "NCS",
        0xDE => "Human",
        0xDF => "Altron",
        0xE0 => "Jaleco",
        0xE1 => "Towa Chiki",
        0xE2 => "Yutaka",
        0xE3 => "Varie",
        0xE5 => "Epcoh",
        0xE7 => "Athena",
        0xE8 => "Asmik Ace Entertainment",
        0xE9 => "Natsume",
        0xEA => "King Records",
        0xEB => "Atlus",
        0xEC => "Epic/Sony Records",
        0xEE => "IGS",
        0xF0 => "A Wave",
        0xF3 => "Extreme Entertainment",
        0xFF => "LJN",
        _ => "Unknown",
    }
}

fn mbc_index_of(t: u8) -> (r: u8)
    ensures
        r == mbc_index_spec(t),
{
    if 1 <= t && t <= 3 {
        1
    } else if t == 5 || t == 6 {
        2
    } else if 0x0F <= t && t <= 0x13 {
        3
    } else if 0x19 <= t && t <= 0x1E {
        5
    } else if t == 0x20 {
        6
    } else if t == 0x22 {
        7
    } else {
        0
    }
}

fn ram_banks_of(code: u8) -> (r: usize)
    ensures
        r == ram_banks_spec(code),
{
    if code == 2 {
        1
    } else if code == 3 {
        4
    } else if code == 4 {
        16
    } else if code == 5 {
        8
    } else {
        0
    }
}

impl CartridgeInfo {
    /// Reads the header of a cartridge image. The title is the ASCII text of `0134..0143` up
    /// to the first zero byte; the licensee comes from the new table (`0144..0145`) when
    /// `014B` is `33`, else from the old one.
    pub fn from_data(path: &str, data: &Vec<u8>) -> (r: Result<CartridgeInfo, HeaderError>)
        ensures
            data@.len() < 0x150 ==> r == Err::<CartridgeInfo, HeaderError>(HeaderError::TooShort),
            data@.len() >= 0x150 && data@[0x148] > 8 ==> r == Err::<CartridgeInfo, HeaderError>(HeaderError::BadRomSize),
            data@.len() >= 0x150 && data@[0x148] <= 8 ==> r.is_ok(),
            r matches Ok(info) ==> {
                &&& info.path@ == path@
                &&& info.cart_type == data@[0x147]
                &&& info.mbc_index == mbc_index_spec(data@[0x147])
                &&& info.rom_bank_count == 2 * pow2_usize(data@[0x148] as nat)
                &&& info.rom_size == info.rom_bank_count * 0x4000
                &&& info.ram_bank_count == ram_banks_spec(data@[0x149])
                &&& info.ram_size == info.ram_bank_count * 0x2000
                &&& info.battery == battery_spec(data@[0x147])
                &&& info.ram == ram_spec(data@[0x147])
                &&& 2 <= info.rom_bank_count <= 512
                &&& data@[0x14B] == 0x33 ==> info.licensee@ == new_licensee_spec((data@[0x144] * 256 + data@[0x145]) as u16)
                &&& data@[0x14B] != 0x33 ==> info.licensee@ == old_licensee_spec(data@[0x14B])
                &&& info.rom == (data@[0x147] == 0x00 || data@[0x147] == 0x08 || data@[0x147] == 0x09)
                &&& info.mmm_01 == (data@[0x147] == 0x0B || data@[0x147] == 0x0C || data@[0x147] == 0x0D)
                &&& info.timer == (data@[0x147] == 0x0F || data@[0x147] == 0x10)
                &&& info.huc_index == (if data@[0x147] == 0xFF { 1u8 } else if data@[0x147] == 0xFE { 3u8 } else { 0u8 })
                &&& (forall|k: int| 0x134 <= k < title_end(data@, 0x134) ==> data@[k] < 128) ==> info.title@
                    == ascii_chars(data@.subrange(0x134, title_end(data@, 0x134)))
            },
    {
        if data.len() < 0x150 {
            return Err(HeaderError::TooShort);
        }
        let size_code = data[0x148];
        if size_code > 8 {
            return Err(HeaderError::BadRomSize);
        }
        let mut title_bytes: Vec<u8> = Vec::new();
        let mut i: usize = 0x134;
        while i < 0x143 && data[i] != 0
            invariant
                0x134 <= i <= 0x143,
                data@.len() >= 0x150,
                title_bytes@ == data@.subrange(0x134, i as int),
                title_end(data@, 0x134) == title_end(data@, i as int),
            decreases 0x143 - i,
        {
            title_bytes.push(data[i]);
            i = i + 1;
        }
        proof {
            assert(title_bytes@ == data@.subrange(0x134, title_end(data@, 0x134)));
        }
        let title = CartridgeInfo::read_to_str(title_bytes.as_slice());
        let licensee = if data[0x14B] == 0x33 {
            new_licensee_name(data[0x144] as u16 * 256 + data[0x145] as u16)
        } else {
            old_licensee_name(data[0x14B])
        };
        let t = data[0x147];
        let mut banks: usize = 2;
        let mut k: u8 = 0;
        while k < size_code
            invariant
                k <= size_code <= 8,
                banks == 2 * pow2_usize(k as nat),
            decreases size_code - k,
        {
            proof {
                lemma_pow2_usize_bound(k as nat);
            }
            banks = banks * 2;
            k = k + 1;
        }
        proof {
            lemma_pow2_usize_bound(size_code as nat);
        }
        let ram_bank_count = ram_banks_of(data[0x149]);
        Ok(CartridgeInfo {
            path: path.to_owned(),
            cart_type: t,
            title,
            licensee: String::from_str(licensee),
            mbc_index: mbc_index_of(t),
            rom_size: banks * 0x4000,
            rom: t == 0x00 || t == 0x08 || t == 0x09,
            rom_bank_count: banks,
            ram: t == 0x02 || t == 0x03 || t == 0x08 || t == 0x09 || t == 0x0C || t == 0x0D || t == 0x10
                || t == 0x12 || t == 0x13 || t == 0x1A || t == 0x1B || t == 0x1D || t == 0x1E || t == 0x22
                || t == 0xFF,
            ram_bank_count,
            ram_size: ram_bank_count * 0x2000,
            battery: t == 0x03 || t == 0x06 || t == 0x09 || t == 0x0D || t == 0x0F || t == 0x10 || t == 0x13
                || t == 0x1B || t == 0x1E || t == 0x22 || t == 0xFF,
            mmm_01: t == 0x0B || t == 0x0C || t == 0x0D,
            timer: t == 0x0F || t == 0x10,
            huc_index: if t == 0xFF { 1 } else if t == 0xFE { 3 } else { 0 },
            bandai_tama: t == 0xFD,
            pocket_camera: t == 0xFC,
            sensor: t == 0x22,
            rumble: t == 0x1C || t == 0x1D || t == 0x1E || t == 0x22,
        })
    }

    /// Whether the header checksum byte `014D` matches the bytes `0134..=014C`.
    pub fn check_header_checksum(card: &[u8]) -> (r: bool)
        requires
            card@.len() >= 0x14E,
        ensures
            r == (checksum_upto(card@, 0x14D) == card@[0x14D]),
    {
        let mut checksum: u8 = 0;
        let mut i: usize = 0x134;
        while i < 0x14D
            invariant
                0x134 <= i <= 0x14D,
                card@.len() >= 0x14E,
                checksum == checksum_upto(card@, i as int),
            decreases 0x14D - i,
        {
            checksum = ((checksum as u16 + 512 - card[i] as u16 - 1) % 256) as u8;
            i = i + 1;
        }
        checksum == card[0x14D]
    }

    /// The bytes as text, or "Unknown" when they are not valid UTF-8.
    pub fn read_to_str(data: &[u8]) -> (r: String)
        ensures
            (forall|i: int| 0 <= i < data@.len() ==> data@[i] < 128) ==> r@ == ascii_chars(data@),
    {
        let mut bytes: Vec<u8> = Vec::new();
        let mut i: usize = 0;
        while i < data.len()
            invariant
                i <= data@.len(),
                bytes@ == data@.subrange(0, i as int),
            decreases data@.len() - i,
        {
            bytes.push(data[i]);
            i = i + 1;
        }
        proof {
            assert(bytes@ == data@);
        }
        match string_from_utf8(bytes) {
            Some(s) => s,
            None => String::from_str("Unknown"),
        }
    }

    /// The hardware features of the cartridge type, joined with `+`.
    pub fn feature_names(&self) -> String {
        let mut s = String::new();
        let mut first = true;
        if self.mbc_index > 0 {
            s.append("MBC");
            s.append(&number_string(self.mbc_index as usize, 10));
            first = false;
        }
        if self.huc_index > 0 {
            if !first {
                s.append("+");
            }
            s.append("HuC");
            s.append(&number_string(self.huc_index as usize, 10));
            first = false;
        }
        if self.mmm_01 {
            if !first {
                s.append("+");
            }
            s.append("MMM01");
            first = false;
        }
        if self.rom {
            if !first {
                s.append("+");
            }
            s.append("ROM");
            first = false;
        }
        if self.sensor {
            if !first {
                s.append("+");
            }
            s.append("SENSOR");
            first = false;
        }
        if self.rumble {
            if !first {
                s.append("+");
            }
            s.append("RUMBLE");
            first = false;
        }
        if self.timer {
            if !first {
                s.append("+");
            }
            s.append("TIMER");
            first = false;
        }
        if self.ram {
            if !first {
                s.append("+");
            }
            s.append("RAM");
            first = false;
        }
        if self.battery {
            if !first {
                s.append("+");
            }
            s.append("BATTERY");
            first = false;
        }
        if self.pocket_camera {
            if !first {
                s.append("+");
            }
            s.append("POCKET CAMERA");
            first = false;
        }
        if self.bandai_tama {
            if !first {
                s.append("+");
            }
            s.append("BANDAI TAMA5");
        }
        s
    }

    /// The summary text around a feature list.
    pub open spec fn summary(&self, features: Seq<char>) -> Seq<char> {
        "Title: "@ + self.title@ + ",\nLicensee: ("@ + self.licensee@ + ")\nROM size: "@ + digits(
            (self.rom_size / 1024) as nat,
            10,
        ) + " KB\nCart type: "@ + digits(self.cart_type as nat, 16) + " ("@ + features + ")"@
    }

    /// A summary: "ROM ONLY" for type 0, else title, licensee, ROM size in KiB and the type
    /// byte in hexadecimal with its features.
    pub fn to_string(&self) -> (r: String)
        ensures
            self.cart_type == 0 ==> r@ == "ROM ONLY"@,
            self.cart_type != 0 ==> exists|features: Seq<char>| r@ == #[trigger] self.summary(features),
    {
        proof {
            reveal_strlit("ROM ONLY");
            reveal_strlit("Title: ");
            reveal_strlit(",\nLicensee: (");
            reveal_strlit(")\nROM size: ");
            reveal_strlit(" KB\nCart type: ");
            reveal_strlit(" (");
            reveal_strlit(")");
        }
        if self.cart_type == 0 {
            return String::from_str("ROM ONLY");
        }
        let features = self.feature_names();
        let mut s = String::from_str("Title: ");
        s.append(self.title.as_str());
        s.append(",\nLicensee: (");
        s.append(self.licensee.as_str());
        s.append(")\nROM size: ");
        s.append(&number_string(self.rom_size / 1024, 10));
        s.append(" KB\nCart type: ");
        s.append(&number_string(self.cart_type as usize, 16));
        s.append(" (");
        s.append(features.as_str());
        s.append(")");
        proof {
            assert(s@ == self.summary(features@));
            assert(s@ == "Title: "@ + self.title@ + ",\nLicensee: ("@ + self.licensee@ + ")\nROM size: "@
                + digits((self.rom_size / 1024) as nat, 10) + " KB\nCart type: "@ + digits(self.cart_type as nat, 16)
                + " ("@ + features@ + ")"@);
        }
        s
    }
}

/// 2 to the power `n`, for ROM size codes.
pub open spec fn pow2_usize(n: nat) -> usize
    decreases n,
{
    if n == 0 { 1 } else { (2 * pow2_usize((n - 1) as nat)) as usize }
}

proof fn lemma_pow2_usize_bound(n: nat)
    requires
        n <= 8,
    ensures
        1 <= pow2_usize(n) <= 256,
        n < 8 ==> pow2_usize(n + 1) == 2 * pow2_usize(n),
{
    reveal_with_fuel(pow2_usize, 10);
    if n == 0 {
    } else if n == 1 {
    } else if n == 2 {
    } else if n == 3 {
    } else if n == 4 {
    } else if n == 5 {
    } else if n == 6 {
    } else if n == 7 {
    } else {
    }
}

} // verus!
