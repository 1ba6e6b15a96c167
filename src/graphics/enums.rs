use vstd::prelude::*;

verus! {

/// Options for building a screen.
#[derive(Debug, Clone, Copy, PartialEq, Eq, Structural)]
pub enum ScreenFlags {
    /// Two buffers in the ring.
    DoubleBuffered,
    /// Three buffers in the ring.
    TripleBuffered,
    /// Pick the widest-and-tallest mode instead of the first one.
    OptimalResolution,
}

/// Physical connector kinds, as the kernel mode-setting API numbers them.
#[allow(non_camel_case_types)]
#[derive(Debug, Clone, Copy, PartialEq, Eq, Structural)]
pub enum ConnectorType {
    Unknown,
    HDMIA,
    HDMIB,
    TV,
    DVII,
    DVID,
    DVIA,
    VGA,
    DISPLAY_PORT,
    eDP,
    VIRTUAL,
    DSI,
    DPI,
    WRITEBACK,
    SPI,
    LVDS,
    COMPOSITE,
    SVIDEO,
    COMPONENT,
    NINE_PIN_DIN,
    USB,
}

/// The kernel's number for each connector kind (`DRM_MODE_CONNECTOR_*`).
pub open spec fn connector_type_code(t: ConnectorType) -> u32 {
    match t {
        ConnectorType::Unknown => 0,
        ConnectorType::VGA => 1,
        ConnectorType::DVII => 2,
        ConnectorType::DVID => 3,
        ConnectorType::DVIA => 4,
        ConnectorType::COMPOSITE => 5,
        ConnectorType::SVIDEO => 6,
        ConnectorType::LVDS => 7,
        ConnectorType::COMPONENT => 8,
        ConnectorType::NINE_PIN_DIN => 9,
        ConnectorType::DISPLAY_PORT => 10,
        ConnectorType::HDMIA => 11,
        ConnectorType::HDMIB => 12,
        ConnectorType::TV => 13,
        ConnectorType::eDP => 14,
        ConnectorType::VIRTUAL => 15,
        ConnectorType::DSI => 16,
        ConnectorType::DPI => 17,
        ConnectorType::WRITEBACK => 18,
        ConnectorType::SPI => 19,
        ConnectorType::USB => 20,
    }
}

/// The name each connector kind is shown under.
pub open spec fn connector_type_name(t: ConnectorType) -> Seq<char> {
    match t {
        ConnectorType::Unknown => "Unknown"@,
        ConnectorType::HDMIA => "HDMI-A"@,
        ConnectorType::HDMIB => "HDMI-B"@,
        ConnectorType::TV => "TV"@,
        ConnectorType::DVII => "DVI-I"@,
        ConnectorType::DVID => "DVI-D"@,
        ConnectorType::DVIA => "DVI-A"@,
        ConnectorType::VGA => "VGA"@,
        ConnectorType::DISPLAY_PORT => "DisplayPort"@,
        ConnectorType::eDP => "eDP"@,
        ConnectorType::VIRTUAL => "Virtual"@,
        ConnectorType::DSI => "DSI"@,
        ConnectorType::DPI => "DPI"@,
        ConnectorType::WRITEBACK => "Writeback"@,
        ConnectorType::SPI => "SPI"@,
        ConnectorType::LVDS => "LVDS"@,
        ConnectorType::COMPOSITE => "Composite"@,
        ConnectorType::SVIDEO => "S-Video"@,
        ConnectorType::COMPONENT => "Component"@,
        ConnectorType::NINE_PIN_DIN => "9-Pin DIN"@,
        ConnectorType::USB => "USB"@,
    }
}

impl ConnectorType {
    /// The name of this kind.
    pub fn name(&self) -> (r: &'static str)
        ensures
            r@ == connector_type_name(*self),
    {
        match self {
            ConnectorType::Unknown => "Unknown",
            ConnectorType::HDMIA => "HDMI-A",
            ConnectorType::HDMIB => "HDMI-B",
            ConnectorType::TV => "TV",
            ConnectorType::DVII => "DVI-I",
            ConnectorType::DVID => "DVI-D",
            ConnectorType::DVIA => "DVI-A",
            ConnectorType::VGA => "VGA",
            ConnectorType::DISPLAY_PORT => "DisplayPort",
            ConnectorType::eDP => "eDP",
            ConnectorType::VIRTUAL => "Virtual",
            ConnectorType::DSI => "DSI",
            ConnectorType::DPI => "DPI",
            ConnectorType::WRITEBACK => "Writeback",
            ConnectorType::SPI => "SPI",
            ConnectorType::LVDS => "LVDS",
            ConnectorType::COMPOSITE => "Composite",
            ConnectorType::SVIDEO => "S-Video",
            ConnectorType::COMPONENT => "Component",
            ConnectorType::NINE_PIN_DIN => "9-Pin DIN",
            ConnectorType::USB => "USB",
        }
    }

    /// The kind that the kernel number `code` stands for; numbers it does
    /// not know give `Unknown`.
    pub fn from_u32(code: u32) -> (r: ConnectorType)
        ensures
            code <= 20 ==> connector_type_code(r) == code,
            code > 20 ==> r == ConnectorType::Unknown,
    {
        match code {
            1 => ConnectorType::VGA,
            2 => ConnectorType::DVII,
            3 => ConnectorType::DVID,
            4 => ConnectorType::DVIA,
            5 => ConnectorType::COMPOSITE,
            6 => ConnectorType::SVIDEO,
            7 => ConnectorType::LVDS,
            8 => ConnectorType::COMPONENT,
            9 => ConnectorType::NINE_PIN_DIN,
            10 => ConnectorType::DISPLAY_PORT,
            11 => ConnectorType::HDMIA,
            12 => ConnectorType::HDMIB,
            13 => ConnectorType::TV,
            14 => ConnectorType::eDP,
            15 => ConnectorType::VIRTUAL,
            16 => ConnectorType::DSI,
            17 => ConnectorType::DPI,
            18 => ConnectorType::WRITEBACK,
            19 => ConnectorType::SPI,
            20 => ConnectorType::USB,
            _ => ConnectorType::Unknown,
        }
    }

    /// The kernel number of this kind.
    pub fn code(&self) -> (r: u32)
        ensures
            r == connector_type_code(*self),
    {
        match self {
            ConnectorType::Unknown => 0,
            ConnectorType::VGA => 1,
            ConnectorType::DVII => 2,
            ConnectorType::DVID => 3,
            ConnectorType::DVIA => 4,
            ConnectorType::COMPOSITE => 5,
            ConnectorType::SVIDEO => 6,
            ConnectorType::LVDS => 7,
            ConnectorType::COMPONENT => 8,
            ConnectorType::NINE_PIN_DIN => 9,
            ConnectorType::DISPLAY_PORT => 10,
            ConnectorType::HDMIA => 11,
            ConnectorType::HDMIB => 12,
            ConnectorType::TV => 13,
            ConnectorType::eDP => 14,
            ConnectorType::VIRTUAL => 15,
            ConnectorType::DSI => 16,
            ConnectorType::DPI => 17,
            ConnectorType::WRITEBACK => 18,
            ConnectorType::SPI => 19,
            ConnectorType::USB => 20,
        }
    }
}

/// Layout of a pixel in memory. Both formats take 4 bytes per pixel.
#[derive(Debug, Clone, Copy, PartialEq, Eq, Structural)]
pub enum PixelFormat {
    XRGB8888,
    ARGB8888,
}

impl PixelFormat {
    /// Bits per pixel.
    pub fn bpp(&self) -> (r: u32)
        ensures
            r == 32,
    {
        match self {
            PixelFormat::XRGB8888 => 32,
            PixelFormat::ARGB8888 => 32,
        }
    }

    /// Bytes per pixel.
    pub fn size(&self) -> (r: usize)
        ensures
            r == 4,
    {
        match self {
            PixelFormat::XRGB8888 => 4,
            PixelFormat::ARGB8888 => 4,
        }
    }

    /// The format of a buffer-allocation format number; unknown numbers
    /// give `XRGB8888`.
    pub fn from(format: u32) -> (r: PixelFormat)
        ensures
            format == 1 ==> r == PixelFormat::ARGB8888,
            format != 1 ==> r == PixelFormat::XRGB8888,
    {
        if format == 1 {
            PixelFormat::ARGB8888
        } else {
            PixelFormat::XRGB8888
        }
    }

    /// The buffer-allocation format number of this format.
    pub fn code(&self) -> (r: u32)
        ensures
            *self == PixelFormat::XRGB8888 ==> r == 0,
            *self == PixelFormat::ARGB8888 ==> r == 1,
    {
        match self {
            PixelFormat::XRGB8888 => 0,
            PixelFormat::ARGB8888 => 1,
        }
    }
}

/// Subpixel layout of a display.
#[derive(Debug, Clone, Copy, PartialEq, Eq, Structural)]
pub enum SubPixel {
    Unknown,
    HorizontalRGB,
    HorizontalBGR,
    VerticalRGB,
    VerticalBGR,
    /// No subpixel layout.
    NoLayout,
}

impl SubPixel {
    /// The layout of a kernel subpixel number (1 to 6); others give `Unknown`.
    pub fn from(subpixel: u32) -> (r: SubPixel)
        ensures
            subpixel == 2 ==> r == SubPixel::HorizontalRGB,
            subpixel == 3 ==> r == SubPixel::HorizontalBGR,
            subpixel == 4 ==> r == SubPixel::VerticalRGB,
            subpixel == 5 ==> r == SubPixel::VerticalBGR,
            subpixel == 6 ==> r == SubPixel::NoLayout,
            !(2 <= subpixel <= 6) ==> r == SubPixel::Unknown,
    {
        match subpixel {
            2 => SubPixel::HorizontalRGB,
            3 => SubPixel::HorizontalBGR,
            4 => SubPixel::VerticalRGB,
            5 => SubPixel::VerticalBGR,
            6 => SubPixel::NoLayout,
            _ => SubPixel::Unknown,
        }
    }
}

/// GPU vendors, known by their PCI vendor id.
#[derive(Debug, Clone, Copy, PartialEq, Eq, Structural)]
pub enum Vendor {
    Unknown,
    AMD,
    Intel,
    Nvidia,
    ARM,
    Qualcomm,
    Broadcom,
    VMware,
    Google,
    Apple,
    Samsung,
    Microsoft,
    ZTE,
}

/// The PCI vendor id of each vendor; 0 for `Unknown`.
pub open spec fn vendor_id(v: Vendor) -> u32 {
    match v {
        Vendor::Unknown => 0,
        Vendor::AMD => 0x1002,
        Vendor::Intel => 0x8086,
        Vendor::Nvidia => 0x10DE,
        Vendor::ARM => 0x13B5,
        Vendor::Qualcomm => 0x5143,
        Vendor::Broadcom => 0x1166,
        Vendor::VMware => 0x15AD,
        Vendor::Google => 0x1AE0,
        Vendor::Apple => 0x106B,
        Vendor::Samsung => 0x144D,
        Vendor::Microsoft => 0x1414,
        Vendor::ZTE => 0x1CF2,
    }
}

/// The name of each vendor.
pub open spec fn vendor_name(v: Vendor) -> Seq<char> {
    match v {
        Vendor::Unknown => "Unknown"@,
        Vendor::AMD => "Advanced Micro Devices"@,
        Vendor::Intel => "Intel Corporation"@,
        Vendor::Nvidia => "NVIDIA Corporation"@,
        Vendor::ARM => "ARM"@,
        Vendor::Qualcomm => "Qualcomm"@,
        Vendor::Broadcom => "Broadcom Inc"@,
        Vendor::VMware => "VMware"@,
        Vendor::Google => "Google LLC"@,
        Vendor::Apple => "Apple Inc"@,
        Vendor::Samsung => "Samsung"@,
        Vendor::Microsoft => "Microsoft Corporation"@,
        Vendor::ZTE => "ZTE"@,
    }
}

/// Vendor names are short.
pub proof fn lemma_vendor_name_len(v: Vendor)
    ensures
        vendor_name(v).len() <= 32,
{
    reveal_strlit("Unknown");
    reveal_strlit("Advanced Micro Devices");
    reveal_strlit("Intel Corporation");
    reveal_strlit("NVIDIA Corporation");
    reveal_strlit("ARM");
    reveal_strlit("Qualcomm");
    reveal_strlit("Broadcom Inc");
    reveal_strlit("VMware");
    reveal_strlit("Google LLC");
    reveal_strlit("Apple Inc");
    reveal_strlit("Samsung");
    reveal_strlit("Microsoft Corporation");
    reveal_strlit("ZTE");
}

/// Whether `id` is the PCI id of a known vendor.
pub open spec fn is_known_vendor_id(id: u32) -> bool {
    id == 0x1002 || id == 0x8086 || id == 0x10DE || id == 0x13B5 || id == 0x5143 || id == 0x1166
        || id == 0x15AD || id == 0x1AE0 || id == 0x106B || id == 0x144D || id == 0x1414 || id
        == 0x1CF2
}

/// The vendor of a PCI vendor id; ids of no known vendor give `Unknown`.
pub open spec fn vendor_of(id: u32) -> Vendor {
    if id == 0x1002 {
        Vendor::AMD
    } else if id == 0x8086 {
        Vendor::Intel
    } else if id == 0x10DE {
        Vendor::Nvidia
    } else if id == 0x13B5 {
        Vendor::ARM
    } else if id == 0x5143 {
        Vendor::Qualcomm
    } else if id == 0x1166 {
        Vendor::Broadcom
    } else if id == 0x15AD {
        Vendor::VMware
    } else if id == 0x1AE0 {
        Vendor::Google
    } else if id == 0x106B {
        Vendor::Apple
    } else if id == 0x144D {
        Vendor::Samsung
    } else if id == 0x1414 {
        Vendor::Microsoft
    } else if id == 0x1CF2 {
        Vendor::ZTE
    } else {
        Vendor::Unknown
    }
}

impl Vendor {
    /// The vendor of a PCI vendor id; ids of no known vendor give `Unknown`.
    pub fn from(id: u32) -> (r: Vendor)
        ensures
            r == vendor_of(id),
            is_known_vendor_id(id) ==> vendor_id(r) == id,
            !is_known_vendor_id(id) ==> r == Vendor::Unknown,
    {
        match id {
            0x1002 => Vendor::AMD,
            0x8086 => Vendor::Intel,
            0x10DE => Vendor::Nvidia,
            0x13B5 => Vendor::ARM,
            0x5143 => Vendor::Qualcomm,
            0x1166 => Vendor::Broadcom,
            0x15AD => Vendor::VMware,
            0x1AE0 => Vendor::Google,
            0x106B => Vendor::Apple,
            0x144D => Vendor::Samsung,
            0x1414 => Vendor::Microsoft,
            0x1CF2 => Vendor::ZTE,
            _ => Vendor::Unknown,
        }
    }

    /// The PCI vendor id.
    pub fn id(&self) -> (r: u32)
        ensures
            r == vendor_id(*self),
    {
        match self {
            Vendor::Unknown => 0,
            Vendor::AMD => 0x1002,
            Vendor::Intel => 0x8086,
            Vendor::Nvidia => 0x10DE,
            Vendor::ARM => 0x13B5,
            Vendor::Qualcomm => 0x5143,
            Vendor::Broadcom => 0x1166,
            Vendor::VMware => 0x15AD,
            Vendor::Google => 0x1AE0,
            Vendor::Apple => 0x106B,
            Vendor::Samsung => 0x144D,
            Vendor::Microsoft => 0x1414,
            Vendor::ZTE => 0x1CF2,
        }
    }

    /// The vendor's name.
    pub fn name(&self) -> (r: &'static str)
        ensures
            r@ == vendor_name(*self),
    {
        match self {
            Vendor::Unknown => "Unknown",
            Vendor::AMD => "Advanced Micro Devices",
            Vendor::Intel => "Intel Corporation",
            Vendor::Nvidia => "NVIDIA Corporation",
            Vendor::ARM => "ARM",
            Vendor::Qualcomm => "Qualcomm",
            Vendor::Broadcom => "Broadcom Inc",
            Vendor::VMware => "VMware",
            Vendor::Google => "Google LLC",
            Vendor::Apple => "Apple Inc",
            Vendor::Samsung => "Samsung",
            Vendor::Microsoft => "Microsoft Corporation",
            Vendor::ZTE => "ZTE",
        }
    }
}

/// Usage of a hardware buffer.
#[derive(Debug, Clone, Copy, PartialEq, Eq, Structural)]
pub enum BufferFlag {
    /// Used as a cursor image.
    Cursor,
    /// Linear, not tiled.
    Linear,
    /// Protected: not readable by untrusted components.
    Protected,
    /// Used as the storage of a colour buffer.
    Rendering,
    /// Scanned out to a display.
    Scanout,
}

/// The buffer-allocation usage bit of each flag (`GBM_BO_USE_*`).
pub open spec fn buffer_flag_bit(f: BufferFlag) -> u32 {
    match f {
        BufferFlag::Scanout => 1,
        BufferFlag::Cursor => 2,
        BufferFlag::Rendering => 4,
        BufferFlag::Linear => 16,
        BufferFlag::Protected => 32,
    }
}

/// The union of the usage bits of `flags`.
pub open spec fn usage_bits(flags: Seq<BufferFlag>) -> u32
    decreases flags.len(),
{
    if flags.len() == 0 {
        0
    } else {
        usage_bits(flags.drop_last()) | buffer_flag_bit(flags.last())
    }
}

impl BufferFlag {
    /// The usage bit of this flag.
    pub fn bit(&self) -> (r: u32)
        ensures
            r == buffer_flag_bit(*self),
    {
        match self {
            BufferFlag::Scanout => 1,
            BufferFlag::Cursor => 2,
            BufferFlag::Rendering => 4,
            BufferFlag::Linear => 16,
            BufferFlag::Protected => 32,
        }
    }
}

/// The usage mask for allocating a buffer with `flags`.
pub fn buffer_usage(flags: &[BufferFlag]) -> (r: u32)
    ensures
        r == usage_bits(flags@),
{
    let mut bits: u32 = 0;
    let mut k: usize = 0;
    while k < flags.len()
        invariant
            k <= flags@.len(),
            bits == usage_bits(flags@.subrange(0, k as int)),
        decreases flags@.len() - k,
    {
        bits = bits | flags[k].bit();
        proof {
            assert(flags@.subrange(0, k + 1).drop_last() =~= flags@.subrange(0, k as int));
        }
        k = k + 1;
    }
    proof {
        assert(flags@.subrange(0, k as int) =~= flags@);
    }
    bits
}

/// Composition order of draw commands; a sort key, not a hardware layer.
#[derive(Debug, Clone, Copy, PartialEq, Eq, Structural)]
pub enum Planes {
    /// No plane.
    NoPlane,
    /// The background, drawn first.
    Background,
    /// The foreground; may be overlapped.
    Foreground,
    /// Overlays, above the foreground, below the cursor.
    Overlay,
    /// The cursor, drawn last.
    Cursor,
}

/// The sort key of each plane.
pub open spec fn plane_value(p: Planes) -> u32 {
    match p {
        Planes::NoPlane => 0,
        Planes::Background => 1,
        Planes::Foreground => 2,
        Planes::Overlay => 3,
        Planes::Cursor => 4,
    }
}

impl Planes {
    /// The plane of a sort key 1 to 4; other keys give `None`.
    pub fn from(plane: i32) -> (r: Planes)
        ensures
            1 <= plane <= 4 ==> plane_value(r) == plane,
            !(1 <= plane <= 4) ==> r == Planes::NoPlane,
    {
        match plane {
            1 => Planes::Background,
            2 => Planes::Foreground,
            3 => Planes::Overlay,
            4 => Planes::Cursor,
            _ => Planes::NoPlane,
        }
    }

    /// The sort key of this plane.
    pub fn value(&self) -> (r: u32)
        ensures
            r == plane_value(*self),
    {
        match self {
            Planes::NoPlane => 0,
            Planes::Background => 1,
            Planes::Foreground => 2,
            Planes::Overlay => 3,
            Planes::Cursor => 4,
        }
    }
}

/// Orientation of a surface.
#[derive(Debug, Clone, Copy, PartialEq, Eq, Structural)]
pub enum SurfaceTransform {
    Normal,
    Rotate90,
    Rotate180,
    Rotate270,
    FlipHorizontal,
    FlipVertical,
    Rotate90FlipHorizontal,
    Rotate90FlipVertical,
}

} // verus!
