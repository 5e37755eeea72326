//! The CP437 code page: the display character of each byte value.

use vstd::prelude::*;

verus! {

/// Number of cells in an atlas, one per byte value.
pub const GLYPH_COUNT: usize = 256;

/// The Unicode character that CP437 assigns to each byte value; byte 0 and
/// byte 255 are shown as a plain space.
pub open spec fn cp437_table(index: u8) -> char {
    if 32 <= index && index <= 126 {
        index as char
    } else {
        match index {
            0 => ' ',
            1 => '\u{263A}',
            2 => '\u{263B}',
            3 => '\u{2665}',
            4 => '\u{2666}',
            5 => '\u{2663}',
            6 => '\u{2660}',
            7 => '\u{2022}',
            8 => '\u{25D8}',
            9 => '\u{25CB}',
            10 => '\u{25D9}',
            11 => '\u{2642}',
            12 => '\u{2640}',
            13 => '\u{266A}',
            14 => '\u{266B}',
            15 => '\u{263C}',
            16 => '\u{25BA}',
            17 => '\u{25C4}',
            18 => '\u{2195}',
            19 => '\u{203C}',
            20 => '\u{00B6}',
            21 => '\u{00A7}',
            22 => '\u{25AC}',
            23 => '\u{21A8}',
            24 => '\u{2191}',
            25 => '\u{2193}',
            26 => '\u{2192}',
            27 => '\u{2190}',
            28 => '\u{221F}',
            29 => '\u{2194}',
            30 => '\u{25B2}',
            31 => '\u{25BC}',
            127 => '\u{2302}',
            128 => '\u{00C7}',
            129 => '\u{00FC}',
            130 => '\u{00E9}',
            131 => '\u{00E2}',
            132 => '\u{00E4}',
            133 => '\u{00E0}',
            134 => '\u{00E5}',
            135 => '\u{00E7}',
            136 => '\u{00EA}',
            137 => '\u{00EB}',
            138 => '\u{00E8}',
            139 => '\u{00EF}',
            140 => '\u{00EE}',
            141 => '\u{00EC}',
            142 => '\u{00C4}',
            143 => '\u{00C5}',
            144 => '\u{00C9}',
            145 => '\u{00E6}',
            146 => '\u{00C6}',
            147 => '\u{00F4}',
            148 => '\u{00F6}',
            149 => '\u{00F2}',
            150 => '\u{00FB}',
            151 => '\u{00F9}',
            152 => '\u{00FF}',
            153 => '\u{00D6}',
            154 => '\u{00DC}',
            155 => '\u{00A2}',
            156 => '\u{00A3}',
            157 => '\u{00A5}',
            158 => '\u{20A7}',
            159 => '\u{0192}',
            160 => '\u{00E1}',
            161 => '\u{00ED}',
            162 => '\u{00F3}',
            163 => '\u{00FA}',
            164 => '\u{00F1}',
            165 => '\u{00D1}',
            166 => '\u{00AA}',
            167 => '\u{00BA}',
            168 => '\u{00BF}',
            169 => '\u{2310}',
            170 => '\u{00AC}',
            171 => '\u{00BD}',
            172 => '\u{00BC}',
            173 => '\u{00A1}',
            174 => '\u{00AB}',
            175 => '\u{00BB}',
            176 => '\u{2591}',
            177 => '\u{2592}',
            178 => '\u{2593}',
            179 => '\u{2502}',
            180 => '\u{2524}',
            181 => '\u{2561}',
            182 => '\u{2562}',
            183 => '\u{2556}',
            184 => '\u{2555}',
            185 => '\u{2563}',
            186 => '\u{2551}',
            187 => '\u{2557}',
            188 => '\u{255D}',
            189 => '\u{255C}',
            190 => '\u{255B}',
            191 => '\u{2510}',
            192 => '\u{2514}',
            193 => '\u{2534}',
            194 => '\u{252C}',
            195 => '\u{251C}',
            196 => '\u{2500}',
            197 => '\u{253C}',
            198 => '\u{255E}',
            199 => '\u{255F}',
            200 => '\u{255A}',
            201 => '\u{2554}',
            202 => '\u{2569}',
            203 => '\u{2566}',
            204 => '\u{2560}',
            205 => '\u{2550}',
            206 => '\u{256C}',
            207 => '\u{2567}',
            208 => '\u{2568}',
            209 => '\u{2564}',
            210 => '\u{2565}',
            211 => '\u{2559}',
            212 => '\u{2558}',
            213 => '\u{2552}',
            214 => '\u{2553}',
            215 => '\u{256B}',
            216 => '\u{256A}',
            217 => '\u{2518}',
            218 => '\u{250C}',
            219 => '\u{2588}',
            220 => '\u{2584}',
            221 => '\u{258C}',
            222 => '\u{2590}',
            223 => '\u{2580}',
            224 => '\u{03B1}',
            225 => '\u{00DF}',
            226 => '\u{0393}',
            227 => '\u{03C0}',
            228 => '\u{03A3}',
            229 => '\u{03C3}',
            230 => '\u{00B5}',
            231 => '\u{03C4}',
            232 => '\u{03A6}',
            233 => '\u{0398}',
            234 => '\u{03A9}',
            235 => '\u{03B4}',
            236 => '\u{221E}',
            237 => '\u{03C6}',
            238 => '\u{03B5}',
            239 => '\u{2229}',
            240 => '\u{2261}',
            241 => '\u{00B1}',
            242 => '\u{2265}',
            243 => '\u{2264}',
            244 => '\u{2320}',
            245 => '\u{2321}',
            246 => '\u{00F7}',
            247 => '\u{2248}',
            248 => '\u{00B0}',
            249 => '\u{2219}',
            250 => '\u{00B7}',
            251 => '\u{221A}',
            252 => '\u{207F}',
            253 => '\u{00B2}',
            254 => '\u{25A0}',
            // byte 255, the non-breaking space
            _ => ' ',
        }
    }
}

/// The display character of byte `index` in the CP437 code page.
pub fn get_cp437_char(index: u8) -> (r: char)
    ensures
        r == cp437_table(index),
        32 <= index <= 126 ==> r as u32 == index as u32,
{
    if 32 <= index && index <= 126 {
        index as char
    } else {
        match index {
            0 => ' ',
            1 => '\u{263A}',
            2 => '\u{263B}',
            3 => '\u{2665}',
            4 => '\u{2666}',
            5 => '\u{2663}',
            6 => '\u{2660}',
            7 => '\u{2022}',
            8 => '\u{25D8}',
            9 => '\u{25CB}',
            10 => '\u{25D9}',
            11 => '\u{2642}',
            12 => '\u{2640}',
            13 => '\u{266A}',
            14 => '\u{266B}',
            15 => '\u{263C}',
            16 => '\u{25BA}',
            17 => '\u{25C4}',
            18 => '\u{2195}',
            19 => '\u{203C}',
            20 => '\u{00B6}',
            21 => '\u{00A7}',
            22 => '\u{25AC}',
            23 => '\u{21A8}',
            24 => '\u{2191}',
            25 => '\u{2193}',
            26 => '\u{2192}',
            27 => '\u{2190}',
            28 => '\u{221F}',
            29 => '\u{2194}',
            30 => '\u{25B2}',
            31 => '\u{25BC}',
            127 => '\u{2302}',
            128 => '\u{00C7}',
            129 => '\u{00FC}',
            130 => '\u{00E9}',
            131 => '\u{00E2}',
            132 => '\u{00E4}',
            133 => '\u{00E0}',
            134 => '\u{00E5}',
            135 => '\u{00E7}',
            136 => '\u{00EA}',
            137 => '\u{00EB}',
            138 => '\u{00E8}',
            139 => '\u{00EF}',
            140 => '\u{00EE}',
            141 => '\u{00EC}',
            142 => '\u{00C4}',
            143 => '\u{00C5}',
            144 => '\u{00C9}',
            145 => '\u{00E6}',
            146 => '\u{00C6}',
            147 => '\u{00F4}',
            148 => '\u{00F6}',
            149 => '\u{00F2}',
            150 => '\u{00FB}',
            151 => '\u{00F9}',
            152 => '\u{00FF}',
            153 => '\u{00D6}',
            154 => '\u{00DC}',
            155 => '\u{00A2}',
            156 => '\u{00A3}',
            157 => '\u{00A5}',
            158 => '\u{20A7}',
            159 => '\u{0192}',
            160 => '\u{00E1}',
            161 => '\u{00ED}',
            162 => '\u{00F3}',
            163 => '\u{00FA}',
            164 => '\u{00F1}',
            165 => '\u{00D1}',
            166 => '\u{00AA}',
            167 => '\u{00BA}',
            168 => '\u{00BF}',
            169 => '\u{2310}',
            170 => '\u{00AC}',
            171 => '\u{00BD}',
            172 => '\u{00BC}',
            173 => '\u{00A1}',
            174 => '\u{00AB}',
            175 => '\u{00BB}',
            176 => '\u{2591}',
            177 => '\u{2592}',
            178 => '\u{2593}',
            179 => '\u{2502}',
            180 => '\u{2524}',
            181 => '\u{2561}',
            182 => '\u{2562}',
            183 => '\u{2556}',
            184 => '\u{2555}',
            185 => '\u{2563}',
            186 => '\u{2551}',
            187 => '\u{2557}',
            188 => '\u{255D}',
            189 => '\u{255C}',
            190 => '\u{255B}',
            191 => '\u{2510}',
            192 => '\u{2514}',
            193 => '\u{2534}',
            194 => '\u{252C}',
            195 => '\u{251C}',
            196 => '\u{2500}',
            197 => '\u{253C}',
            198 => '\u{255E}',
            199 => '\u{255F}',
            200 => '\u{255A}',
            201 => '\u{2554}',
            202 => '\u{2569}',
            203 => '\u{2566}',
            204 => '\u{2560}',
            205 => '\u{2550}',
            206 => '\u{256C}',
            207 => '\u{2567}',
            208 => '\u{2568}',
            209 => '\u{2564}',
            210 => '\u{2565}',
            211 => '\u{2559}',
            212 => '\u{2558}',
            213 => '\u{2552}',
            214 => '\u{2553}',
            215 => '\u{256B}',
            216 => '\u{256A}',
            217 => '\u{2518}',
            218 => '\u{250C}',
            219 => '\u{2588}',
            220 => '\u{2584}',
            221 => '\u{258C}',
            222 => '\u{2590}',
            223 => '\u{2580}',
            224 => '\u{03B1}',
            225 => '\u{00DF}',
            226 => '\u{0393}',
            227 => '\u{03C0}',
            228 => '\u{03A3}',
            229 => '\u{03C3}',
            230 => '\u{00B5}',
            231 => '\u{03C4}',
            232 => '\u{03A6}',
            233 => '\u{0398}',
            234 => '\u{03A9}',
            235 => '\u{03B4}',
            236 => '\u{221E}',
            237 => '\u{03C6}',
            238 => '\u{03B5}',
            239 => '\u{2229}',
            240 => '\u{2261}',
            241 => '\u{00B1}',
            242 => '\u{2265}',
            243 => '\u{2264}',
            244 => '\u{2320}',
            245 => '\u{2321}',
            246 => '\u{00F7}',
            247 => '\u{2248}',
            248 => '\u{00B0}',
            249 => '\u{2219}',
            250 => '\u{00B7}',
            251 => '\u{221A}',
            252 => '\u{207F}',
            253 => '\u{00B2}',
            254 => '\u{25A0}',
            // byte 255, the non-breaking space
            _ => ' ',
        }
    }
}

/// All 256 display characters, in byte order.
pub fn cp437_chars() -> (r: Vec<char>)
    ensures
        r@.len() == GLYPH_COUNT,
        forall|i: int| 0 <= i < GLYPH_COUNT ==> r@[i] == cp437_table(i as u8),
{
    let mut r: Vec<char> = Vec::with_capacity(GLYPH_COUNT);
    let mut i: usize = 0;
    while i < GLYPH_COUNT
        invariant
            i <= GLYPH_COUNT,
            r@.len() == i,
            forall|j: int| 0 <= j < i ==> r@[j] == cp437_table(j as u8),
        decreases GLYPH_COUNT - i,
    {
        r.push(get_cp437_char(i as u8));
        i += 1;
    }
    r
}

/// The printable ASCII characters, space to tilde, in order.
pub fn printable_ascii() -> (r: Vec<char>)
    ensures
        r@.len() == 95,
        forall|i: int| 0 <= i < 95 ==> r@[i] == cp437_table((32 + i) as u8),
        forall|i: int| 0 <= i < 95 ==> r@[i] as u32 == 32 + i,
{
    let mut r: Vec<char> = Vec::with_capacity(95);
    let mut b: u8 = 32;
    while b <= 126
        invariant
            32 <= b <= 127,
            r@.len() == b - 32,
            forall|i: int| 0 <= i < b - 32 ==> r@[i] == cp437_table((32 + i) as u8),
            forall|i: int| 0 <= i < b - 32 ==> r@[i] as u32 == 32 + i,
        decreases 127 - b,
    {
        r.push(get_cp437_char(b));
        b += 1;
    }
    r
}

} // verus!
