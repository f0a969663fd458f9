//! The catalog of identifiers: the properties a caller may ask for and the
//! evidence keys the engine recognizes, each with the token the engine
//! expects, and a free-form variant for any other token.

use vstd::prelude::*;

verus! {

/// A property of the detected device, browser or platform. `Custom` carries a
/// token of the caller's own; whether the loaded dataset knows a token is
/// seen only when the property is read.
#[derive(Debug, Clone, Copy, PartialEq)]
pub enum PropertyName {
    // Device
    DeviceId,
    DeviceType,
    CrawlerName,
    // Device properties
    HasTouchScreen,
    IsScreenFoldable,
    IsSmallScreen,
    IsEmailBrowser,
    IsEmulatingDesktop,
    IsEmulatingDevice,
    IsWebApp,
    IsConsole,
    IsEReader,
    IsMediaHub,
    IsMobile,
    IsSmartWatch,
    IsTablet,
    IsTv,
    IsCrawler,
    IsArtificialIntelligence,
    // Native device
    NativeBrand,
    NativeDevice,
    NativeModel,
    NativeName,
    NativePlatform,
    // Browser
    BrowserFamily,
    BrowserName,
    BrowserVendor,
    BrowserVersion,
    BrowserReleaseYear,
    BrowserSourceProject,
    BrowserSourceProjectVersion,
    BrowserRank,
    // Browser capabilities
    Canvas,
    CookiesCapable,
    CssCanvas,
    DeviceOrientation,
    Fetch,
    Fullscreen,
    GeoLocation,
    IndexedDB,
    InVRMode,
    Javascript,
    Viewport,
    // Platform
    PlatformName,
    PlatformVendor,
    PlatformVersion,
    PlatformReleaseYear,
    PlatformRank,
    // Hardware
    HardwareName,
    HardwareVendor,
    HardwareFamily,
    HardwareModel,
    HardwareModelVariants,
    HardwareCarrier,
    HardwareRank,
    /// The company that manufactures the device.
    OEM,
    /// The year in which the device was released or first seen.
    ReleaseYear,
    // Screen
    BitsPerPixel,
    PixelRatio,
    ScreenInchesDiagonal,
    ScreenPixelsHeight,
    ScreenPixelsPhysicalHeight,
    ScreenPixelsPhysicalWidth,
    ScreenPixelsWidth,
    ScreenType,
    // Network registration
    RegisteredCountry,
    RegisteredName,
    RegisteredOwner,
    // Match metrics and the rest
    Profiles,
    /// The number of unique client addresses from which the device was seen.
    Popularity,
    /// The price range of the device at its release.
    PriceBand,
    /// How far the match is from an exact one; larger is less certain.
    Difference,
    /// How far the matched substrings lay from where they were expected.
    Drift,
    /// The user agents that were matched.
    UserAgents,
    /// Any other token, taken as it is.
    Custom(&'static str),
}

impl PropertyName {
    /// The token that names this property to the engine.
    pub open spec fn token(self) -> Seq<char> {
        match self {
            PropertyName::DeviceId => "DeviceId"@,
            PropertyName::DeviceType => "DeviceType"@,
            PropertyName::CrawlerName => "CrawlerName"@,
            PropertyName::HasTouchScreen => "HasTouchScreen"@,
            PropertyName::IsScreenFoldable => "IsScreenFoldable"@,
            PropertyName::IsSmallScreen => "IsSmallScreen"@,
            PropertyName::IsEmailBrowser => "IsEmailBrowser"@,
            PropertyName::IsEmulatingDesktop => "IsEmulatingDesktop"@,
            PropertyName::IsEmulatingDevice => "IsEmulatingDevice"@,
            PropertyName::IsWebApp => "IsWebApp"@,
            PropertyName::IsConsole => "IsConsole"@,
            PropertyName::IsEReader => "IsEReader"@,
            PropertyName::IsMediaHub => "IsMediaHub"@,
            PropertyName::IsMobile => "IsMobile"@,
            PropertyName::IsSmartWatch => "IsSmartWatch"@,
            PropertyName::IsTablet => "IsTablet"@,
            PropertyName::IsTv => "IsTv"@,
            PropertyName::IsCrawler => "IsCrawler"@,
            PropertyName::IsArtificialIntelligence => "IsArtificialIntelligence"@,
            PropertyName::NativeBrand => "NativeBrand"@,
            PropertyName::NativeDevice => "NativeDevice"@,
            PropertyName::NativeModel => "NativeModel"@,
            PropertyName::NativeName => "NativeName"@,
            PropertyName::NativePlatform => "NativePlatform"@,
            PropertyName::BrowserFamily => "BrowserFamily"@,
            PropertyName::BrowserName => "BrowserName"@,
            PropertyName::BrowserVendor => "BrowserVendor"@,
            PropertyName::BrowserVersion => "BrowserVersion"@,
            PropertyName::BrowserReleaseYear => "BrowserReleaseYear"@,
            PropertyName::BrowserSourceProject => "BrowserSourceProject"@,
            PropertyName::BrowserSourceProjectVersion => "BrowserSourceProjectVersion"@,
            PropertyName::BrowserRank => "BrowserRank"@,
            PropertyName::Canvas => "Canvas"@,
            PropertyName::CookiesCapable => "CookiesCapable"@,
            PropertyName::CssCanvas => "CssCanvas"@,
            PropertyName::DeviceOrientation => "DeviceOrientation"@,
            PropertyName::Fetch => "Fetch"@,
            PropertyName::Fullscreen => "Fullscreen"@,
            PropertyName::GeoLocation => "GeoLocation"@,
            PropertyName::IndexedDB => "IndexedDB"@,
            PropertyName::InVRMode => "InVRMode"@,
            PropertyName::Javascript => "Javascript"@,
            PropertyName::Viewport => "Viewport"@,
            PropertyName::PlatformName => "PlatformName"@,
            PropertyName::PlatformVendor => "PlatformVendor"@,
            PropertyName::PlatformVersion => "PlatformVersion"@,
            PropertyName::PlatformReleaseYear => "PlatformReleaseYear"@,
            PropertyName::PlatformRank => "PlatformRank"@,
            PropertyName::HardwareName => "HardwareName"@,
            PropertyName::HardwareVendor => "HardwareVendor"@,
            PropertyName::HardwareFamily => "HardwareFamily"@,
            PropertyName::HardwareModel => "HardwareModel"@,
            PropertyName::HardwareModelVariants => "HardwareModelVariants"@,
            PropertyName::HardwareCarrier => "HardwareCarrier"@,
            PropertyName::HardwareRank => "HardwareRank"@,
            PropertyName::OEM => "OEM"@,
            PropertyName::ReleaseYear => "ReleaseYear"@,
            PropertyName::BitsPerPixel => "BitsPerPixel"@,
            PropertyName::PixelRatio => "PixelRatio"@,
            PropertyName::ScreenInchesDiagonal => "ScreenInchesDiagonal"@,
            PropertyName::ScreenPixelsHeight => "ScreenPixelsHeight"@,
            PropertyName::ScreenPixelsPhysicalHeight => "ScreenPixelsPhysicalHeight"@,
            PropertyName::ScreenPixelsPhysicalWidth => "ScreenPixelsPhysicalWidth"@,
            PropertyName::ScreenPixelsWidth => "ScreenPixelsWidth"@,
            PropertyName::ScreenType => "ScreenType"@,
            PropertyName::RegisteredCountry => "RegisteredCountry"@,
            PropertyName::RegisteredName => "RegisteredName"@,
            PropertyName::RegisteredOwner => "RegisteredOwner"@,
            PropertyName::Profiles => "Profiles"@,
            PropertyName::Popularity => "Popularity"@,
            PropertyName::PriceBand => "PriceBand"@,
            PropertyName::Difference => "Difference"@,
            PropertyName::Drift => "Drift"@,
            PropertyName::UserAgents => "UserAgents"@,
            PropertyName::Custom(s) => s@,
        }
    }

    /// The token that names this property to the engine.
    pub fn to_str(&self) -> (r: &str)
        ensures
            r@ == self.token(),
    {
        match self {
            PropertyName::DeviceId => "DeviceId",
            PropertyName::DeviceType => "DeviceType",
            PropertyName::CrawlerName => "CrawlerName",
            PropertyName::HasTouchScreen => "HasTouchScreen",
            PropertyName::IsScreenFoldable => "IsScreenFoldable",
            PropertyName::IsSmallScreen => "IsSmallScreen",
            PropertyName::IsEmailBrowser => "IsEmailBrowser",
            PropertyName::IsEmulatingDesktop => "IsEmulatingDesktop",
            PropertyName::IsEmulatingDevice => "IsEmulatingDevice",
            PropertyName::IsWebApp => "IsWebApp",
            PropertyName::IsConsole => "IsConsole",
            PropertyName::IsEReader => "IsEReader",
            PropertyName::IsMediaHub => "IsMediaHub",
            PropertyName::IsMobile => "IsMobile",
            PropertyName::IsSmartWatch => "IsSmartWatch",
            PropertyName::IsTablet => "IsTablet",
            PropertyName::IsTv => "IsTv",
            PropertyName::IsCrawler => "IsCrawler",
            PropertyName::IsArtificialIntelligence => "IsArtificialIntelligence",
            PropertyName::NativeBrand => "NativeBrand",
            PropertyName::NativeDevice => "NativeDevice",
            PropertyName::NativeModel => "NativeModel",
            PropertyName::NativeName => "NativeName",
            PropertyName::NativePlatform => "NativePlatform",
            PropertyName::BrowserFamily => "BrowserFamily",
            PropertyName::BrowserName => "BrowserName",
            PropertyName::BrowserVendor => "BrowserVendor",
            PropertyName::BrowserVersion => "BrowserVersion",
            PropertyName::BrowserReleaseYear => "BrowserReleaseYear",
            PropertyName::BrowserSourceProject => "BrowserSourceProject",
            PropertyName::BrowserSourceProjectVersion => "BrowserSourceProjectVersion",
            PropertyName::BrowserRank => "BrowserRank",
            PropertyName::Canvas => "Canvas",
            PropertyName::CookiesCapable => "CookiesCapable",
            PropertyName::CssCanvas => "CssCanvas",
            PropertyName::DeviceOrientation => "DeviceOrientation",
            PropertyName::Fetch => "Fetch",
            PropertyName::Fullscreen => "Fullscreen",
            PropertyName::GeoLocation => "GeoLocation",
            PropertyName::IndexedDB => "IndexedDB",
            PropertyName::InVRMode => "InVRMode",
            PropertyName::Javascript => "Javascript",
            PropertyName::Viewport => "Viewport",
            PropertyName::PlatformName => "PlatformName",
            PropertyName::PlatformVendor => "PlatformVendor",
            PropertyName::PlatformVersion => "PlatformVersion",
            PropertyName::PlatformReleaseYear => "PlatformReleaseYear",
            PropertyName::PlatformRank => "PlatformRank",
            PropertyName::HardwareName => "HardwareName",
            PropertyName::HardwareVendor => "HardwareVendor",
            PropertyName::HardwareFamily => "HardwareFamily",
            PropertyName::HardwareModel => "HardwareModel",
            PropertyName::HardwareModelVariants => "HardwareModelVariants",
            PropertyName::HardwareCarrier => "HardwareCarrier",
            PropertyName::HardwareRank => "HardwareRank",
            PropertyName::OEM => "OEM",
            PropertyName::ReleaseYear => "ReleaseYear",
            PropertyName::BitsPerPixel => "BitsPerPixel",
            PropertyName::PixelRatio => "PixelRatio",
            PropertyName::ScreenInchesDiagonal => "ScreenInchesDiagonal",
            PropertyName::ScreenPixelsHeight => "ScreenPixelsHeight",
            PropertyName::ScreenPixelsPhysicalHeight => "ScreenPixelsPhysicalHeight",
            PropertyName::ScreenPixelsPhysicalWidth => "ScreenPixelsPhysicalWidth",
            PropertyName::ScreenPixelsWidth => "ScreenPixelsWidth",
            PropertyName::ScreenType => "ScreenType",
            PropertyName::RegisteredCountry => "RegisteredCountry",
            PropertyName::RegisteredName => "RegisteredName",
            PropertyName::RegisteredOwner => "RegisteredOwner",
            PropertyName::Profiles => "Profiles",
            PropertyName::Popularity => "Popularity",
            PropertyName::PriceBand => "PriceBand",
            PropertyName::Difference => "Difference",
            PropertyName::Drift => "Drift",
            PropertyName::UserAgents => "UserAgents",
            PropertyName::Custom(s) => s,
        }
    }
}

/// No two entries of the property catalog share a token.
pub proof fn lemma_property_tokens_distinct(a: PropertyName, b: PropertyName)
    requires
        !(a is Custom),
        !(b is Custom),
        a.token() == b.token(),
    ensures
        a == b,
{
    reveal_strlit("DeviceId");
    assert("DeviceId"@.len() == 8 && "DeviceId"@[0] == 'D');
    reveal_strlit("DeviceType");
    assert("DeviceType"@.len() == 10 && "DeviceType"@[0] == 'D' && "DeviceType"@[1] == 'e');
    reveal_strlit("CrawlerName");
    assert("CrawlerName"@.len() == 11 && "CrawlerName"@[0] == 'C');
    reveal_strlit("HasTouchScreen");
    assert("HasTouchScreen"@.len() == 14 && "HasTouchScreen"@[0] == 'H' && "HasTouchScreen"@[2] == 's');
    reveal_strlit("IsScreenFoldable");
    assert("IsScreenFoldable"@.len() == 16);
    reveal_strlit("IsSmallScreen");
    assert("IsSmallScreen"@.len() == 13 && "IsSmallScreen"@[0] == 'I');
    reveal_strlit("IsEmailBrowser");
    assert("IsEmailBrowser"@.len() == 14 && "IsEmailBrowser"@[0] == 'I');
    reveal_strlit("IsEmulatingDesktop");
    assert("IsEmulatingDesktop"@.len() == 18 && "IsEmulatingDesktop"@[0] == 'I');
    reveal_strlit("IsEmulatingDevice");
    assert("IsEmulatingDevice"@.len() == 17 && "IsEmulatingDevice"@[0] == 'I');
    reveal_strlit("IsWebApp");
    assert("IsWebApp"@.len() == 8 && "IsWebApp"@[0] == 'I' && "IsWebApp"@[1] == 's' && "IsWebApp"@[2] == 'W');
    reveal_strlit("IsConsole");
    assert("IsConsole"@.len() == 9 && "IsConsole"@[0] == 'I' && "IsConsole"@[1] == 's' && "IsConsole"@[2] == 'C' && "IsConsole"@[3] == 'o');
    reveal_strlit("IsEReader");
    assert("IsEReader"@.len() == 9 && "IsEReader"@[0] == 'I' && "IsEReader"@[1] == 's' && "IsEReader"@[2] == 'E');
    reveal_strlit("IsMediaHub");
    assert("IsMediaHub"@.len() == 10 && "IsMediaHub"@[0] == 'I');
    reveal_strlit("IsMobile");
    assert("IsMobile"@.len() == 8 && "IsMobile"@[0] == 'I' && "IsMobile"@[1] == 's' && "IsMobile"@[2] == 'M');
    reveal_strlit("IsSmartWatch");
    assert("IsSmartWatch"@.len() == 12 && "IsSmartWatch"@[0] == 'I');
    reveal_strlit("IsTablet");
    assert("IsTablet"@.len() == 8 && "IsTablet"@[0] == 'I' && "IsTablet"@[1] == 's' && "IsTablet"@[2] == 'T');
    reveal_strlit("IsTv");
    assert("IsTv"@.len() == 4);
    reveal_strlit("IsCrawler");
    assert("IsCrawler"@.len() == 9 && "IsCrawler"@[0] == 'I' && "IsCrawler"@[1] == 's' && "IsCrawler"@[2] == 'C' && "IsCrawler"@[3] == 'r');
    reveal_strlit("IsArtificialIntelligence");
    assert("IsArtificialIntelligence"@.len() == 24);
    reveal_strlit("NativeBrand");
    assert("NativeBrand"@.len() == 11 && "NativeBrand"@[0] == 'N' && "NativeBrand"@[6] == 'B');
    reveal_strlit("NativeDevice");
    assert("NativeDevice"@.len() == 12 && "NativeDevice"@[0] == 'N');
    reveal_strlit("NativeModel");
    assert("NativeModel"@.len() == 11 && "NativeModel"@[0] == 'N' && "NativeModel"@[6] == 'M');
    reveal_strlit("NativeName");
    assert("NativeName"@.len() == 10 && "NativeName"@[0] == 'N');
    reveal_strlit("NativePlatform");
    assert("NativePlatform"@.len() == 14 && "NativePlatform"@[0] == 'N');
    reveal_strlit("BrowserFamily");
    assert("BrowserFamily"@.len() == 13 && "BrowserFamily"@[0] == 'B' && "BrowserFamily"@[7] == 'F');
    reveal_strlit("BrowserName");
    assert("BrowserName"@.len() == 11 && "BrowserName"@[0] == 'B' && "BrowserName"@[7] == 'N');
    reveal_strlit("BrowserVendor");
    assert("BrowserVendor"@.len() == 13 && "BrowserVendor"@[0] == 'B' && "BrowserVendor"@[7] == 'V');
    reveal_strlit("BrowserVersion");
    assert("BrowserVersion"@.len() == 14 && "BrowserVersion"@[0] == 'B');
    reveal_strlit("BrowserReleaseYear");
    assert("BrowserReleaseYear"@.len() == 18 && "BrowserReleaseYear"@[0] == 'B');
    reveal_strlit("BrowserSourceProject");
    assert("BrowserSourceProject"@.len() == 20 && "BrowserSourceProject"@[0] == 'B');
    reveal_strlit("BrowserSourceProjectVersion");
    assert("BrowserSourceProjectVersion"@.len() == 27);
    reveal_strlit("BrowserRank");
    assert("BrowserRank"@.len() == 11 && "BrowserRank"@[0] == 'B' && "BrowserRank"@[7] == 'R');
    reveal_strlit("Canvas");
    assert("Canvas"@.len() == 6);
    reveal_strlit("CookiesCapable");
    assert("CookiesCapable"@.len() == 14 && "CookiesCapable"@[0] == 'C');
    reveal_strlit("CssCanvas");
    assert("CssCanvas"@.len() == 9 && "CssCanvas"@[0] == 'C');
    reveal_strlit("DeviceOrientation");
    assert("DeviceOrientation"@.len() == 17 && "DeviceOrientation"@[0] == 'D');
    reveal_strlit("Fetch");
    assert("Fetch"@.len() == 5 && "Fetch"@[0] == 'F');
    reveal_strlit("Fullscreen");
    assert("Fullscreen"@.len() == 10 && "Fullscreen"@[0] == 'F');
    reveal_strlit("GeoLocation");
    assert("GeoLocation"@.len() == 11 && "GeoLocation"@[0] == 'G');
    reveal_strlit("IndexedDB");
    assert("IndexedDB"@.len() == 9 && "IndexedDB"@[0] == 'I' && "IndexedDB"@[1] == 'n');
    reveal_strlit("InVRMode");
    assert("InVRMode"@.len() == 8 && "InVRMode"@[0] == 'I' && "InVRMode"@[1] == 'n');
    reveal_strlit("Javascript");
    assert("Javascript"@.len() == 10 && "Javascript"@[0] == 'J');
    reveal_strlit("Viewport");
    assert("Viewport"@.len() == 8 && "Viewport"@[0] == 'V');
    reveal_strlit("PlatformName");
    assert("PlatformName"@.len() == 12 && "PlatformName"@[0] == 'P' && "PlatformName"@[8] == 'N');
    reveal_strlit("PlatformVendor");
    assert("PlatformVendor"@.len() == 14 && "PlatformVendor"@[0] == 'P');
    reveal_strlit("PlatformVersion");
    assert("PlatformVersion"@.len() == 15 && "PlatformVersion"@[0] == 'P');
    reveal_strlit("PlatformReleaseYear");
    assert("PlatformReleaseYear"@.len() == 19);
    reveal_strlit("PlatformRank");
    assert("PlatformRank"@.len() == 12 && "PlatformRank"@[0] == 'P' && "PlatformRank"@[8] == 'R');
    reveal_strlit("HardwareName");
    assert("HardwareName"@.len() == 12 && "HardwareName"@[0] == 'H' && "HardwareName"@[8] == 'N');
    reveal_strlit("HardwareVendor");
    assert("HardwareVendor"@.len() == 14 && "HardwareVendor"@[0] == 'H' && "HardwareVendor"@[2] == 'r' && "HardwareVendor"@[8] == 'V');
    reveal_strlit("HardwareFamily");
    assert("HardwareFamily"@.len() == 14 && "HardwareFamily"@[0] == 'H' && "HardwareFamily"@[2] == 'r' && "HardwareFamily"@[8] == 'F');
    reveal_strlit("HardwareModel");
    assert("HardwareModel"@.len() == 13 && "HardwareModel"@[0] == 'H');
    reveal_strlit("HardwareModelVariants");
    assert("HardwareModelVariants"@.len() == 21);
    reveal_strlit("HardwareCarrier");
    assert("HardwareCarrier"@.len() == 15 && "HardwareCarrier"@[0] == 'H');
    reveal_strlit("HardwareRank");
    assert("HardwareRank"@.len() == 12 && "HardwareRank"@[0] == 'H' && "HardwareRank"@[8] == 'R');
    reveal_strlit("OEM");
    assert("OEM"@.len() == 3);
    reveal_strlit("ReleaseYear");
    assert("ReleaseYear"@.len() == 11 && "ReleaseYear"@[0] == 'R');
    reveal_strlit("BitsPerPixel");
    assert("BitsPerPixel"@.len() == 12 && "BitsPerPixel"@[0] == 'B');
    reveal_strlit("PixelRatio");
    assert("PixelRatio"@.len() == 10 && "PixelRatio"@[0] == 'P' && "PixelRatio"@[1] == 'i');
    reveal_strlit("ScreenInchesDiagonal");
    assert("ScreenInchesDiagonal"@.len() == 20 && "ScreenInchesDiagonal"@[0] == 'S');
    reveal_strlit("ScreenPixelsHeight");
    assert("ScreenPixelsHeight"@.len() == 18 && "ScreenPixelsHeight"@[0] == 'S');
    reveal_strlit("ScreenPixelsPhysicalHeight");
    assert("ScreenPixelsPhysicalHeight"@.len() == 26);
    reveal_strlit("ScreenPixelsPhysicalWidth");
    assert("ScreenPixelsPhysicalWidth"@.len() == 25);
    reveal_strlit("ScreenPixelsWidth");
    assert("ScreenPixelsWidth"@.len() == 17 && "ScreenPixelsWidth"@[0] == 'S');
    reveal_strlit("ScreenType");
    assert("ScreenType"@.len() == 10 && "ScreenType"@[0] == 'S');
    reveal_strlit("RegisteredCountry");
    assert("RegisteredCountry"@.len() == 17 && "RegisteredCountry"@[0] == 'R');
    reveal_strlit("RegisteredName");
    assert("RegisteredName"@.len() == 14 && "RegisteredName"@[0] == 'R');
    reveal_strlit("RegisteredOwner");
    assert("RegisteredOwner"@.len() == 15 && "RegisteredOwner"@[0] == 'R');
    reveal_strlit("Profiles");
    assert("Profiles"@.len() == 8 && "Profiles"@[0] == 'P');
    reveal_strlit("Popularity");
    assert("Popularity"@.len() == 10 && "Popularity"@[0] == 'P' && "Popularity"@[1] == 'o');
    reveal_strlit("PriceBand");
    assert("PriceBand"@.len() == 9 && "PriceBand"@[0] == 'P');
    reveal_strlit("Difference");
    assert("Difference"@.len() == 10 && "Difference"@[0] == 'D' && "Difference"@[1] == 'i');
    reveal_strlit("Drift");
    assert("Drift"@.len() == 5 && "Drift"@[0] == 'D');
    reveal_strlit("UserAgents");
    assert("UserAgents"@.len() == 10 && "UserAgents"@[0] == 'U');
}

/// A custom property is named by its own token, unchanged.
pub proof fn lemma_custom_property_token(s: &'static str)
    ensures
        PropertyName::Custom(s).token() == s@,
{
}

/// A key under which evidence is handed to the engine: a recognized header
/// name, or any other key, taken as it is.
#[derive(Debug, Clone, Copy, PartialEq)]
pub enum EvidenceName {
    UserAgent,
    SecChUa,
    SecChPlatform,
    /// Any other key, taken as it is.
    Custom(&'static str),
}

impl EvidenceName {
    /// The header name that this key stands for.
    pub open spec fn token(self) -> Seq<char> {
        match self {
            EvidenceName::UserAgent => "user-agent"@,
            EvidenceName::SecChUa => "sec-ch-ua"@,
            EvidenceName::SecChPlatform => "sec-ch-platform"@,
            EvidenceName::Custom(s) => s@,
        }
    }

    /// Pairs this key with a value, as one piece of evidence.
    pub fn value(self, v: &str) -> (r: (EvidenceName, &str))
        ensures
            r.0 == self,
            r.1 == v,
    {
        (self, v)
    }

    /// The header name that this key stands for.
    pub fn as_str(&self) -> (r: &str)
        ensures
            r@ == self.token(),
    {
        match self {
            EvidenceName::UserAgent => "user-agent",
            EvidenceName::SecChUa => "sec-ch-ua",
            EvidenceName::SecChPlatform => "sec-ch-platform",
            EvidenceName::Custom(s) => s,
        }
    }
}

/// No two recognized evidence keys share a header name.
pub proof fn lemma_evidence_tokens_distinct(a: EvidenceName, b: EvidenceName)
    requires
        !(a is Custom),
        !(b is Custom),
        a.token() == b.token(),
    ensures
        a == b,
{
    reveal_strlit("user-agent");
    assert("user-agent"@.len() == 10);
    reveal_strlit("sec-ch-ua");
    assert("sec-ch-ua"@.len() == 9);
    reveal_strlit("sec-ch-platform");
    assert("sec-ch-platform"@.len() == 15);
}

} // verus!
