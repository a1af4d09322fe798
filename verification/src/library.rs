use vstd::prelude::*;

verus! {

/// The font providers that libass can be asked to use, and that it reports
/// as compiled in.
#[derive(Debug, Clone, Copy, PartialEq, Eq, Structural)]
pub enum DefaultFontProvider {
    NoProvider,
    Autodetect,
    CoreText,
    Fontconfig,
    DirectWrite,
}

impl DefaultFontProvider {
    /// The value of the C enum `ASS_DefaultFontProvider` for this provider.
    pub open spec fn spec_code(self) -> i32 {
        match self {
            DefaultFontProvider::NoProvider => 0,
            DefaultFontProvider::Autodetect => 1,
            DefaultFontProvider::CoreText => 2,
            DefaultFontProvider::Fontconfig => 3,
            DefaultFontProvider::DirectWrite => 4,
        }
    }

    /// The C enum value passed to libass for this provider.
    pub fn code(self) -> (c: i32)
        ensures
            c == self.spec_code(),
            self == DefaultFontProvider::NoProvider ==> c == 0,
            self == DefaultFontProvider::Autodetect ==> c == 1,
            self == DefaultFontProvider::CoreText ==> c == 2,
            self == DefaultFontProvider::Fontconfig ==> c == 3,
            self == DefaultFontProvider::DirectWrite ==> c == 4,
    {
        match self {
            DefaultFontProvider::NoProvider => 0,
            DefaultFontProvider::Autodetect => 1,
            DefaultFontProvider::CoreText => 2,
            DefaultFontProvider::Fontconfig => 3,
            DefaultFontProvider::DirectWrite => 4,
        }
    }

    /// Reads a C `ASS_DefaultFontProvider` value; `None` for a value that
    /// names no provider.
    pub fn from_code(code: i32) -> (r: Option<DefaultFontProvider>)
        ensures
            r == provider_from_code(code),
            code == 0 ==> r == Some(DefaultFontProvider::NoProvider),
            code == 1 ==> r == Some(DefaultFontProvider::Autodetect),
            code == 2 ==> r == Some(DefaultFontProvider::CoreText),
            code == 3 ==> r == Some(DefaultFontProvider::Fontconfig),
            code == 4 ==> r == Some(DefaultFontProvider::DirectWrite),
            !(0 <= code <= 4) ==> r is None,
    {
        if code == 0 {
            Some(DefaultFontProvider::NoProvider)
        } else if code == 1 {
            Some(DefaultFontProvider::Autodetect)
        } else if code == 2 {
            Some(DefaultFontProvider::CoreText)
        } else if code == 3 {
            Some(DefaultFontProvider::Fontconfig)
        } else if code == 4 {
            Some(DefaultFontProvider::DirectWrite)
        } else {
            None
        }
    }
}

/// The provider that a C `ASS_DefaultFontProvider` value names, if any.
pub open spec fn provider_from_code(code: i32) -> Option<DefaultFontProvider> {
    if code == 0 {
        Some(DefaultFontProvider::NoProvider)
    } else if code == 1 {
        Some(DefaultFontProvider::Autodetect)
    } else if code == 2 {
        Some(DefaultFontProvider::CoreText)
    } else if code == 3 {
        Some(DefaultFontProvider::Fontconfig)
    } else if code == 4 {
        Some(DefaultFontProvider::DirectWrite)
    } else {
        None
    }
}

/// Whether a C value names a font provider.
pub open spec fn is_provider_code(code: i32) -> bool {
    0 <= code <= 4
}

/// Reads the list of available font providers that libass reports, as C enum
/// values, into the Rust enum, keeping the order.
pub fn providers_from_codes(codes: &[i32]) -> (r: Vec<DefaultFontProvider>)
    requires
        forall|i: int| 0 <= i < codes@.len() ==> is_provider_code(#[trigger] codes@[i]),
    ensures
        r@.len() == codes@.len(),
        forall|i: int|
            0 <= i < codes@.len() ==> provider_from_code(codes@[i]) == Some(#[trigger] r@[i]),
{
    let mut out: Vec<DefaultFontProvider> = Vec::new();
    let mut i: usize = 0;
    while i < codes.len()
        invariant
            i <= codes@.len(),
            out@.len() == i,
            forall|j: int| 0 <= j < codes@.len() ==> is_provider_code(#[trigger] codes@[j]),
            forall|j: int| 0 <= j < i ==> provider_from_code(codes@[j]) == Some(#[trigger] out@[j]),
        decreases codes@.len() - i,
    {
        let c = codes[i];
        assert(is_provider_code(codes@[i as int]));
        match DefaultFontProvider::from_code(c) {
            Some(p) => out.push(p),
            None => {},
        }
        i = i + 1;
    }
    out
}

/// A provider passed to libass by its C value and read back from that value
/// is the same provider.
pub proof fn lemma_provider_code_round_trip(p: DefaultFontProvider)
    ensures
        provider_from_code(p.spec_code()) == Some(p),
        is_provider_code(p.spec_code()),
{
}

/// The C values that name a provider are exactly 0 to 4, and each names the
/// provider whose value it is.
pub proof fn lemma_provider_codes_exact(code: i32)
    ensures
        provider_from_code(code) is Some <==> is_provider_code(code),
        provider_from_code(code) is Some ==> provider_from_code(code).unwrap().spec_code() == code,
{
}

/// Distinct providers have distinct C values.
pub proof fn lemma_provider_code_injective(a: DefaultFontProvider, b: DefaultFontProvider)
    ensures
        a.spec_code() == b.spec_code() ==> a == b,
{
}

} // verus!
