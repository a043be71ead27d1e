//! QR symbols in byte mode: the data capacity of each version, the choice of
//! the smallest version that holds a payload, and the module grid.

use vstd::prelude::*;
use vstd::string::*;

use crate::text::{decimal, push_decimal};

verus! {

/// The error correction level of a symbol.
#[derive(Debug, Clone, Copy, PartialEq, Eq, Structural)]
pub enum EcLevel {
    /// Recovers about 7% of damaged codewords.
    L,
    /// Recovers about 15% of damaged codewords.
    M,
    /// Recovers about 25% of damaged codewords.
    Q,
    /// Recovers about 30% of damaged codewords.
    H,
}

/// The largest symbol version.
pub const MAX_VERSION: u8 = 40;

/// The number of modules across a symbol of the given version.
pub open spec fn symbol_width(version: int) -> int {
    17 + 4 * version
}

/// The position of an error correction level in the order L, M, Q, H.
pub open spec fn ec_index(ec: EcLevel) -> u8 {
    match ec {
        EcLevel::L => 0,
        EcLevel::M => 1,
        EcLevel::Q => 2,
        EcLevel::H => 3,
    }
}

/// The entry for a level out of a row of four, in the order L, M, Q, H.
pub open spec fn by_level(ec: EcLevel, l: int, m: int, q: int, h: int) -> int {
    match ec {
        EcLevel::L => l,
        EcLevel::M => m,
        EcLevel::Q => q,
        EcLevel::H => h,
    }
}

/// The number of data bits of a symbol (ISO/IEC 18004, table 7).
pub open spec fn data_bits(ec: EcLevel, version: int) -> int {
    if version == 1 {
        by_level(ec, 152, 128, 104, 72)
    } else if version == 2 {
        by_level(ec, 272, 224, 176, 128)
    } else if version == 3 {
        by_level(ec, 440, 352, 272, 208)
    } else if version == 4 {
        by_level(ec, 640, 512, 384, 288)
    } else if version == 5 {
        by_level(ec, 864, 688, 496, 368)
    } else if version == 6 {
        by_level(ec, 1088, 864, 608, 480)
    } else if version == 7 {
        by_level(ec, 1248, 992, 704, 528)
    } else if version == 8 {
        by_level(ec, 1552, 1232, 880, 688)
    } else if version == 9 {
        by_level(ec, 1856, 1456, 1056, 800)
    } else if version == 10 {
        by_level(ec, 2192, 1728, 1232, 976)
    } else if version == 11 {
        by_level(ec, 2592, 2032, 1440, 1120)
    } else if version == 12 {
        by_level(ec, 2960, 2320, 1648, 1264)
    } else if version == 13 {
        by_level(ec, 3424, 2672, 1952, 1440)
    } else if version == 14 {
        by_level(ec, 3688, 2920, 2088, 1576)
    } else if version == 15 {
        by_level(ec, 4184, 3320, 2360, 1784)
    } else if version == 16 {
        by_level(ec, 4712, 3624, 2600, 2024)
    } else if version == 17 {
        by_level(ec, 5176, 4056, 2936, 2264)
    } else if version == 18 {
        by_level(ec, 5768, 4504, 3176, 2504)
    } else if version == 19 {
        by_level(ec, 6360, 5016, 3560, 2728)
    } else if version == 20 {
        by_level(ec, 6888, 5352, 3880, 3080)
    } else if version == 21 {
        by_level(ec, 7456, 5712, 4096, 3248)
    } else if version == 22 {
        by_level(ec, 8048, 6256, 4544, 3536)
    } else if version == 23 {
        by_level(ec, 8752, 6880, 4912, 3712)
    } else if version == 24 {
        by_level(ec, 9392, 7312, 5312, 4112)
    } else if version == 25 {
        by_level(ec, 10208, 8000, 5744, 4304)
    } else if version == 26 {
        by_level(ec, 10960, 8496, 6032, 4768)
    } else if version == 27 {
        by_level(ec, 11744, 9024, 6464, 5024)
    } else if version == 28 {
        by_level(ec, 12248, 9544, 6968, 5288)
    } else if version == 29 {
        by_level(ec, 13048, 10136, 7288, 5608)
    } else if version == 30 {
        by_level(ec, 13880, 10984, 7880, 5960)
    } else if version == 31 {
        by_level(ec, 14744, 11640, 8264, 6344)
    } else if version == 32 {
        by_level(ec, 15640, 12328, 8920, 6760)
    } else if version == 33 {
        by_level(ec, 16568, 13048, 9368, 7208)
    } else if version == 34 {
        by_level(ec, 17528, 13800, 9848, 7688)
    } else if version == 35 {
        by_level(ec, 18448, 14496, 10288, 7888)
    } else if version == 36 {
        by_level(ec, 19472, 15312, 10832, 8432)
    } else if version == 37 {
        by_level(ec, 20528, 15936, 11408, 8768)
    } else if version == 38 {
        by_level(ec, 21616, 16816, 12016, 9136)
    } else if version == 39 {
        by_level(ec, 22496, 17728, 12656, 9776)
    } else if version == 40 {
        by_level(ec, 23648, 18672, 13328, 10208)
    } else {
        0
    }
}

/// The width of the character count field in byte mode.
pub open spec fn count_bits(version: int) -> int {
    if version <= 9 {
        8
    } else {
        16
    }
}

/// The number of payload bytes that a symbol holds in byte mode, after the
/// 4-bit mode indicator and the character count.
pub open spec fn byte_capacity(ec: EcLevel, version: int) -> int {
    (data_bits(ec, version) - 4 - count_bits(version)) / 8
}

/// The first version from `version` on whose capacity is at least `len`.
pub open spec fn first_fit(ec: EcLevel, len: int, version: int) -> Option<int>
    decreases 41 - version,
{
    if version > 40 || version < 1 {
        None
    } else if len <= byte_capacity(ec, version) {
        Some(version)
    } else {
        first_fit(ec, len, version + 1)
    }
}

/// The smallest version that holds `len` bytes, if any does.
pub open spec fn fitting_version(ec: EcLevel, len: int) -> Option<int> {
    first_fit(ec, len, 1)
}

fn pick_level(ec: EcLevel, l: u32, m: u32, q: u32, h: u32) -> (r: u32)
    ensures
        r == by_level(ec, l as int, m as int, q as int, h as int),
{
    match ec {
        EcLevel::L => l,
        EcLevel::M => m,
        EcLevel::Q => q,
        EcLevel::H => h,
    }
}

fn data_bits_of(ec: EcLevel, version: u8) -> (r: u32)
    ensures
        r == data_bits(ec, version as int),
{
    if version == 1 {
        pick_level(ec, 152, 128, 104, 72)
    } else if version == 2 {
        pick_level(ec, 272, 224, 176, 128)
    } else if version == 3 {
        pick_level(ec, 440, 352, 272, 208)
    } else if version == 4 {
        pick_level(ec, 640, 512, 384, 288)
    } else if version == 5 {
        pick_level(ec, 864, 688, 496, 368)
    } else if version == 6 {
        pick_level(ec, 1088, 864, 608, 480)
    } else if version == 7 {
        pick_level(ec, 1248, 992, 704, 528)
    } else if version == 8 {
        pick_level(ec, 1552, 1232, 880, 688)
    } else if version == 9 {
        pick_level(ec, 1856, 1456, 1056, 800)
    } else if version == 10 {
        pick_level(ec, 2192, 1728, 1232, 976)
    } else if version == 11 {
        pick_level(ec, 2592, 2032, 1440, 1120)
    } else if version == 12 {
        pick_level(ec, 2960, 2320, 1648, 1264)
    } else if version == 13 {
        pick_level(ec, 3424, 2672, 1952, 1440)
    } else if version == 14 {
        pick_level(ec, 3688, 2920, 2088, 1576)
    } else if version == 15 {
        pick_level(ec, 4184, 3320, 2360, 1784)
    } else if version == 16 {
        pick_level(ec, 4712, 3624, 2600, 2024)
    } else if version == 17 {
        pick_level(ec, 5176, 4056, 2936, 2264)
    } else if version == 18 {
        pick_level(ec, 5768, 4504, 3176, 2504)
    } else if version == 19 {
        pick_level(ec, 6360, 5016, 3560, 2728)
    } else if version == 20 {
        pick_level(ec, 6888, 5352, 3880, 3080)
    } else if version == 21 {
        pick_level(ec, 7456, 5712, 4096, 3248)
    } else if version == 22 {
        pick_level(ec, 8048, 6256, 4544, 3536)
    } else if version == 23 {
        pick_level(ec, 8752, 6880, 4912, 3712)
    } else if version == 24 {
        pick_level(ec, 9392, 7312, 5312, 4112)
    } else if version == 25 {
        pick_level(ec, 10208, 8000, 5744, 4304)
    } else if version == 26 {
        pick_level(ec, 10960, 8496, 6032, 4768)
    } else if version == 27 {
        pick_level(ec, 11744, 9024, 6464, 5024)
    } else if version == 28 {
        pick_level(ec, 12248, 9544, 6968, 5288)
    } else if version == 29 {
        pick_level(ec, 13048, 10136, 7288, 5608)
    } else if version == 30 {
        pick_level(ec, 13880, 10984, 7880, 5960)
    } else if version == 31 {
        pick_level(ec, 14744, 11640, 8264, 6344)
    } else if version == 32 {
        pick_level(ec, 15640, 12328, 8920, 6760)
    } else if version == 33 {
        pick_level(ec, 16568, 13048, 9368, 7208)
    } else if version == 34 {
        pick_level(ec, 17528, 13800, 9848, 7688)
    } else if version == 35 {
        pick_level(ec, 18448, 14496, 10288, 7888)
    } else if version == 36 {
        pick_level(ec, 19472, 15312, 10832, 8432)
    } else if version == 37 {
        pick_level(ec, 20528, 15936, 11408, 8768)
    } else if version == 38 {
        pick_level(ec, 21616, 16816, 12016, 9136)
    } else if version == 39 {
        pick_level(ec, 22496, 17728, 12656, 9776)
    } else if version == 40 {
        pick_level(ec, 23648, 18672, 13328, 10208)
    } else {
        0
    }
}

/// The byte-mode capacity of a version at a level.
pub fn capacity(ec: EcLevel, version: u8) -> (r: usize)
    requires
        1 <= version <= 40,
    ensures
        r == byte_capacity(ec, version as int),
{
    let bits = data_bits_of(ec, version);
    let count: u32 = if version <= 9 { 8 } else { 16 };
    ((bits - 4 - count) / 8) as usize
}

/// Each version holds strictly more bytes than the one before it.
pub proof fn lemma_capacity_increasing(ec: EcLevel, v: int)
    requires
        1 <= v < 40,
    ensures
        byte_capacity(ec, v) < byte_capacity(ec, v + 1),
{
}

/// Capacity grows with the version, also across several steps.
pub proof fn lemma_capacity_monotone(ec: EcLevel, v: int, w: int)
    requires
        1 <= v <= w <= 40,
    ensures
        byte_capacity(ec, v) <= byte_capacity(ec, w),
    decreases w - v,
{
    if v < w {
        lemma_capacity_increasing(ec, v);
        lemma_capacity_monotone(ec, v + 1, w);
    }
}

/// What the search from `start` finds: the first version that fits, or none.
pub proof fn lemma_first_fit(ec: EcLevel, len: int, start: int)
    requires
        1 <= start <= 41,
    ensures
        match first_fit(ec, len, start) {
            Some(v) => start <= v <= 40 && len <= byte_capacity(ec, v) && forall|u: int|
                start <= u < v ==> byte_capacity(ec, u) < len,
            None => forall|u: int| start <= u <= 40 ==> byte_capacity(ec, u) < len,
        },
    decreases 41 - start,
{
    if start <= 40 && len > byte_capacity(ec, start) {
        lemma_first_fit(ec, len, start + 1);
    }
}

/// The smallest fitting version, and the case where none fits: exactly the
/// payloads longer than the largest version holds.
pub proof fn lemma_fitting_version(ec: EcLevel, len: int)
    ensures
        fitting_version(ec, len) is None <==> len > byte_capacity(ec, 40),
        match fitting_version(ec, len) {
            Some(v) => 1 <= v <= 40 && len <= byte_capacity(ec, v) && (v > 1 ==> byte_capacity(
                ec,
                v - 1,
            ) < len),
            None => true,
        },
{
    lemma_first_fit(ec, len, 1);
    if let Some(v) = fitting_version(ec, len) {
        lemma_capacity_monotone(ec, v, 40);
    }
}

/// The smallest version whose capacity holds `len` bytes, or `None`
/// when even the largest version is too small.
pub fn select_version(ec: EcLevel, len: usize) -> (r: Option<u8>)
    ensures
        match r {
            Some(v) => fitting_version(ec, len as int) == Some(v as int),
            None => fitting_version(ec, len as int) is None,
        },
{
    let mut v: u8 = 1;
    while v <= MAX_VERSION
        invariant
            1 <= v <= 41,
            first_fit(ec, len as int, 1) == first_fit(ec, len as int, v as int),
        decreases 41 - v,
    {
        if len <= capacity(ec, v) {
            return Some(v);
        }
        v = v + 1;
    }
    None
}

/// Why a payload could not be made into a symbol.
#[derive(Debug, Clone, Copy, PartialEq, Eq, Structural)]
pub enum SymbolError {
    /// The payload is longer than the largest version holds.
    CapacityExceeded { payload_len: usize, max_capacity: usize },
}

/// The message that describes a symbol error.
pub open spec fn symbol_error_text(e: SymbolError) -> Seq<char> {
    match e {
        SymbolError::CapacityExceeded { payload_len, max_capacity } => "payload of "@ + decimal(
            payload_len as nat,
        ) + " bytes exceeds the largest symbol capacity of "@ + decimal(max_capacity as nat)
            + " bytes"@,
    }
}

impl SymbolError {
    /// A human-readable message, with the payload length and the capacity
    /// where the payload is too long.
    pub fn message(&self) -> (r: String)
        ensures
            r@ == symbol_error_text(*self),
    {
        proof {
            reveal_strlit("payload of ");
            reveal_strlit(" bytes exceeds the largest symbol capacity of ");
            reveal_strlit(" bytes");
        }
        match self {
            SymbolError::CapacityExceeded { payload_len, max_capacity } => {
                let mut r = String::from_str("payload of ");
                push_decimal(&mut r, *payload_len as u64);
                r.append(" bytes exceeds the largest symbol capacity of ");
                push_decimal(&mut r, *max_capacity as u64);
                r.append(" bytes");
                r
            },
        }
    }
}

/// A finished symbol: its version and its modules, row by row, `true` for dark.
#[derive(Debug)]
pub struct ModuleGrid {
    pub version: u8,
    pub width: usize,
    pub modules: Vec<bool>,
}

impl ModuleGrid {
    /// A grid of a real version, with one module for each cell of its square.
    pub open spec fn wf(&self) -> bool {
        &&& 1 <= self.version <= 40
        &&& self.width == symbol_width(self.version as int)
        &&& self.modules@.len() == self.width * self.width
    }
}

/// The modules that qrcode draws for a byte-mode payload at a version and
/// level.
pub uninterp spec fn qr_symbol(payload: Seq<u8>, version: u8, ec: u8) -> Seq<bool>;

/// Relies on qrcode's `Bits::push_byte_data`, `Bits::push_terminator`,
/// `QrCode::with_bits` and `QrCode::into_colors`: the byte-mode symbol of a
/// version, one module per entry row by row, `width * width` of them. None
/// of the calls fails where the payload fits the version's data bits after
/// the mode indicator and the character count.
#[verifier::external_body]
fn qr_modules(payload: &[u8], version: u8, ec: EcLevel) -> (r: Vec<bool>)
    requires
        1 <= version <= 40,
        payload@.len() <= byte_capacity(ec, version as int),
    ensures
        r@ == qr_symbol(payload@, version, ec_index(ec)),
        r@.len() == symbol_width(version as int) * symbol_width(version as int),
{
    let level = match ec {
        EcLevel::L => qrcode::EcLevel::L,
        EcLevel::M => qrcode::EcLevel::M,
        EcLevel::Q => qrcode::EcLevel::Q,
        EcLevel::H => qrcode::EcLevel::H,
    };
    let mut bits = qrcode::bits::Bits::new(qrcode::Version::Normal(version as i16));
    bits.push_byte_data(payload).expect("the payload fits the version");
    bits.push_terminator(level).expect("the payload fits the version");
    let code = qrcode::QrCode::with_bits(bits, level).expect("a valid version");
    code.into_colors().into_iter().map(|c| c == qrcode::Color::Dark).collect()
}

/// The outcome of encoding a payload at a level: the version and modules,
/// or the error.
pub open spec fn encoded(payload: Seq<u8>, ec: EcLevel) -> Result<(u8, Seq<bool>), SymbolError> {
    match fitting_version(ec, payload.len() as int) {
        None => Err(
            SymbolError::CapacityExceeded {
                payload_len: payload.len() as usize,
                max_capacity: byte_capacity(ec, 40) as usize,
            },
        ),
        Some(v) => Ok((v as u8, qr_symbol(payload, v as u8, ec_index(ec)))),
    }
}

/// What a result of `encode` holds, seen as values.
pub open spec fn outcome(r: Result<ModuleGrid, SymbolError>) -> Result<(u8, Seq<bool>), SymbolError> {
    match r {
        Ok(g) => Ok((g.version, g.modules@)),
        Err(e) => Err(e),
    }
}

/// Encodes a payload in byte mode as the smallest symbol version that holds
/// it at the given level.
pub fn encode(payload: &[u8], ec: EcLevel) -> (r: Result<ModuleGrid, SymbolError>)
    ensures
        outcome(r) == encoded(payload@, ec),
        r is Ok <==> payload@.len() <= byte_capacity(ec, 40),
        r is Ok ==> r->Ok_0.wf(),
{
    proof {
        lemma_fitting_version(ec, payload@.len() as int);
    }
    match select_version(ec, payload.len()) {
        None => Err(
            SymbolError::CapacityExceeded {
                payload_len: payload.len(),
                max_capacity: capacity(ec, MAX_VERSION),
            },
        ),
        Some(version) => {
            let modules = qr_modules(payload, version, ec);
            let width: usize = 17 + 4 * version as usize;
            Ok(ModuleGrid { version, width, modules })
        },
    }
}

/// Encoding is deterministic: two encodings of one payload at one level
/// give the same version and the same modules, or the same error.
pub proof fn lemma_encoding_deterministic(
    payload: Seq<u8>,
    ec: EcLevel,
    first: Result<ModuleGrid, SymbolError>,
    second: Result<ModuleGrid, SymbolError>,
)
    requires
        outcome(first) == encoded(payload, ec),
        outcome(second) == encoded(payload, ec),
    ensures
        outcome(first) == outcome(second),
{
}

/// A shorter payload never gets a larger version than a longer one, where
/// both are encoded.
pub proof fn lemma_version_monotone(
    a: Seq<u8>,
    b: Seq<u8>,
    ec: EcLevel,
    version_a: u8,
    modules_a: Seq<bool>,
    version_b: u8,
    modules_b: Seq<bool>,
)
    requires
        a.len() < b.len(),
        encoded(a, ec) == Ok::<(u8, Seq<bool>), SymbolError>((version_a, modules_a)),
        encoded(b, ec) == Ok::<(u8, Seq<bool>), SymbolError>((version_b, modules_b)),
    ensures
        version_a <= version_b,
{
    lemma_fitting_version(ec, a.len() as int);
    lemma_fitting_version(ec, b.len() as int);
    let va = fitting_version(ec, a.len() as int)->Some_0;
    let vb = fitting_version(ec, b.len() as int)->Some_0;
    lemma_first_fit(ec, a.len() as int, 1);
    if vb < va {
        assert(byte_capacity(ec, vb) < a.len());
    }
}

/// A payload of exactly a version's capacity is encoded at that version; one
/// byte more is encoded at the next version, or fails with
/// `CapacityExceeded` beyond the largest.
pub proof fn lemma_capacity_boundary(ec: EcLevel, version: int, exact: Seq<u8>, over: Seq<u8>)
    requires
        1 <= version <= 40,
        exact.len() == byte_capacity(ec, version),
        over.len() == exact.len() + 1,
    ensures
        fitting_version(ec, exact.len() as int) == Some(version),
        encoded(exact, ec) is Ok && encoded(exact, ec)->Ok_0.0 == version,
        version < 40 ==> fitting_version(ec, over.len() as int) == Some(version + 1),
        version < 40 ==> encoded(over, ec) is Ok && encoded(over, ec)->Ok_0.0 == version + 1,
        version == 40 ==> encoded(over, ec) == Err::<(u8, Seq<bool>), SymbolError>(
            SymbolError::CapacityExceeded {
                payload_len: over.len() as usize,
                max_capacity: byte_capacity(ec, 40) as usize,
            },
        ),
{
    lemma_fitting_version(ec, exact.len() as int);
    lemma_fitting_version(ec, over.len() as int);
    lemma_first_fit(ec, exact.len() as int, 1);
    lemma_first_fit(ec, over.len() as int, 1);
    if version > 1 {
        lemma_capacity_increasing(ec, version - 1);
    }
    if version < 40 {
        lemma_capacity_increasing(ec, version);
    }
    let v = fitting_version(ec, exact.len() as int)->Some_0;
    if v < version {
        lemma_capacity_monotone(ec, v, version - 1);
    }
    if version < 40 {
        let w = fitting_version(ec, over.len() as int)->Some_0;
        if w <= version {
            lemma_capacity_monotone(ec, w, version);
        }
    }
}

} // verus!
