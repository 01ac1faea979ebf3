use vstd::prelude::*;
use crate::text::{join3, text_eq};

verus! {

/// The present mode that never tears and never blocks.
pub const PRESENT_MODE_MAILBOX: i32 = 1;

/// The present mode every device offers.
pub const PRESENT_MODE_FIFO: i32 = 2;

/// The preferred swapchain image format, `B8G8R8A8_SRGB`.
pub const FORMAT_B8G8R8A8_SRGB: i32 = 50;

/// The preferred colour space, `SRGB_NONLINEAR`.
pub const COLOR_SPACE_SRGB_NONLINEAR: i32 = 0;

/// Queue family capability bit: graphics.
pub const QUEUE_GRAPHICS: u32 = 1;

/// Queue family capability bit: compute.
pub const QUEUE_COMPUTE: u32 = 2;

/// Format feature bit: usable as a depth/stencil attachment.
pub const FEATURE_DEPTH_STENCIL_ATTACHMENT: u32 = 0x200;

/// The API version a device must offer: 1.4.0.
pub const REQUIRED_API_VERSION: u32 = 0x404000;

/// How many frames are prepared at once.
pub const FRAMES_IN_FLIGHT: u32 = 2;

/// The constants pushed to the shaders with a draw: which material it uses.
#[derive(Debug, Clone, Copy, PartialEq, Eq, Structural)]
pub struct PushConstant {
    pub material_index: u32,
}

/// Packs a Vulkan API version number.
pub fn make_api_version(variant: u32, major: u32, minor: u32, patch: u32) -> (r: u32)
    ensures
        r == ((variant << 29u32) | (major << 22u32) | (minor << 12u32) | patch),
{
    (variant << 29u32) | (major << 22u32) | (minor << 12u32) | patch
}

/// Whether a flag set holds every bit of `bit`.
pub open spec fn has_bits(flags: u32, bit: u32) -> bool {
    flags & bit == bit
}

fn contains_bits(flags: u32, bit: u32) -> (r: bool)
    ensures
        r == has_bits(flags, bit),
{
    flags & bit == bit
}

/// The label of a validation message's severity: each test asks whether the
/// severity holds no bit beside the one it names.
pub open spec fn severity_label(severity: u32) -> Seq<char> {
    if severity & 0x1000 == severity {
        "error"@
    } else if severity & 0x100 == severity {
        "warning"@
    } else if severity & 0x10 == severity {
        "info"@
    } else {
        "verbose"@
    }
}

/// Names the severity of a validation message, as [`severity_label`] says.
pub fn severity_name(severity: u32) -> (r: &'static str)
    ensures
        r@ == severity_label(severity),
{
    if severity & 0x1000 == severity {
        "error"
    } else if severity & 0x100 == severity {
        "warning"
    } else if severity & 0x10 == severity {
        "info"
    } else {
        "verbose"
    }
}

/// The line printed for a validation message.
pub fn validation_message(severity: u32, message: &str) -> (r: String)
    ensures
        r@ == "validation layer: type "@ + severity_label(severity) + " msg: "@ + message@,
{
    let mut s = join3("validation layer: type ", severity_name(severity), " msg: ");
    s.append(message);
    s
}

/// The present mode to use: mailbox where the surface offers it, else FIFO.
pub open spec fn present_mode_choice(available: Seq<i32>) -> i32 {
    if available.contains(PRESENT_MODE_MAILBOX) {
        PRESENT_MODE_MAILBOX
    } else {
        PRESENT_MODE_FIFO
    }
}

/// Chooses the swapchain's present mode among those the surface offers.
pub fn choose_present_mode(available: &Vec<i32>) -> (r: i32)
    ensures
        r == present_mode_choice(available@),
{
    let mut i: usize = 0;
    while i < available.len()
        invariant
            i <= available@.len(),
            forall|j: int| 0 <= j < i ==> available@[j] != PRESENT_MODE_MAILBOX,
        decreases available@.len() - i,
    {
        if available[i] == PRESENT_MODE_MAILBOX {
            return PRESENT_MODE_MAILBOX;
        }
        i = i + 1;
    }
    PRESENT_MODE_FIFO
}

/// A surface format: an image format with a colour space.
#[derive(Debug, Clone, Copy, PartialEq, Eq, Structural)]
pub struct SurfaceFormat {
    pub format: i32,
    pub color_space: i32,
}

/// Whether a surface format is the preferred sRGB one.
pub open spec fn preferred_format(f: SurfaceFormat) -> bool {
    f.format == FORMAT_B8G8R8A8_SRGB && f.color_space == COLOR_SPACE_SRGB_NONLINEAR
}

/// The surface format to use: the preferred sRGB one where offered, else
/// the first offered.
pub open spec fn surface_format_choice(available: Seq<SurfaceFormat>) -> SurfaceFormat {
    if exists|i: int| 0 <= i < available.len() && preferred_format(#[trigger] available[i]) {
        SurfaceFormat {
            format: FORMAT_B8G8R8A8_SRGB,
            color_space: COLOR_SPACE_SRGB_NONLINEAR,
        }
    } else {
        available[0]
    }
}

/// Chooses the swapchain's surface format among those the surface offers.
pub fn choose_surface_format(available: &Vec<SurfaceFormat>) -> (r: SurfaceFormat)
    requires
        available@.len() > 0,
    ensures
        r == surface_format_choice(available@),
{
    let mut i: usize = 0;
    while i < available.len()
        invariant
            i <= available@.len(),
            forall|j: int| 0 <= j < i ==> !preferred_format(#[trigger] available@[j]),
        decreases available@.len() - i,
    {
        let f = available[i];
        if f.format == FORMAT_B8G8R8A8_SRGB && f.color_space == COLOR_SPACE_SRGB_NONLINEAR {
            return f;
        }
        i = i + 1;
    }
    available[0]
}

/// The present mode is mailbox exactly when the surface offers it, and FIFO,
/// which every surface offers, otherwise.
pub proof fn lemma_present_mode_choice(available: Seq<i32>)
    ensures
        present_mode_choice(available) == PRESENT_MODE_MAILBOX <==> available.contains(PRESENT_MODE_MAILBOX),
        present_mode_choice(available) == PRESENT_MODE_MAILBOX || present_mode_choice(available) == PRESENT_MODE_FIFO,
{
}

/// The surface format is one the surface offers: the sRGB `B8G8R8A8` one
/// with the sRGB non-linear colour space where it is offered, the first one
/// offered otherwise.
pub proof fn lemma_surface_format_choice(available: Seq<SurfaceFormat>)
    requires
        available.len() > 0,
    ensures
        available.contains(surface_format_choice(available)),
        (exists|i: int|
            0 <= i < available.len() && (#[trigger] available[i]).format == FORMAT_B8G8R8A8_SRGB
                && available[i].color_space == COLOR_SPACE_SRGB_NONLINEAR) ==> (surface_format_choice(
            available,
        ).format == FORMAT_B8G8R8A8_SRGB && surface_format_choice(available).color_space
            == COLOR_SPACE_SRGB_NONLINEAR),
        (forall|i: int|
            0 <= i < available.len() ==> !((#[trigger] available[i]).format == FORMAT_B8G8R8A8_SRGB
                && available[i].color_space == COLOR_SPACE_SRGB_NONLINEAR)) ==> surface_format_choice(
            available,
        ) == available[0],
{
    if exists|i: int| 0 <= i < available.len() && preferred_format(#[trigger] available[i]) {
        let i = choose|i: int| 0 <= i < available.len() && preferred_format(#[trigger] available[i]);
        assert(available[i] == surface_format_choice(available));
    } else {
        assert(available[0] == surface_format_choice(available));
        assert forall|i: int|
            0 <= i < available.len() implies !((#[trigger] available[i]).format == FORMAT_B8G8R8A8_SRGB
            && available[i].color_space == COLOR_SPACE_SRGB_NONLINEAR) by {
            assert(!preferred_format(available[i]));
        }
    }
}

/// A width and a height in pixels.
#[derive(Debug, Clone, Copy, PartialEq, Eq, Structural)]
pub struct Extent2D {
    pub width: u32,
    pub height: u32,
}

/// `v` held between `lo` and `hi`.
pub open spec fn clamp_spec(v: u32, lo: u32, hi: u32) -> u32 {
    if v < lo {
        lo
    } else if v > hi {
        hi
    } else {
        v
    }
}

fn clamp_u32(v: u32, lo: u32, hi: u32) -> (r: u32)
    requires
        lo <= hi,
    ensures
        r == clamp_spec(v, lo, hi),
{
    if v < lo {
        lo
    } else if v > hi {
        hi
    } else {
        v
    }
}

/// The swapchain's extent: the surface's current extent, unless the surface
/// leaves it to the window (width `u32::MAX`); then the window's size held
/// within the surface's limits.
pub open spec fn extent_choice(current: Extent2D, window: Extent2D, min: Extent2D, max: Extent2D) -> Extent2D {
    if current.width != u32::MAX {
        current
    } else {
        Extent2D {
            width: clamp_spec(window.width, min.width, max.width),
            height: clamp_spec(window.height, min.height, max.height),
        }
    }
}

/// Chooses the swapchain's extent, as [`extent_choice`] says.
pub fn choose_swapchain_extent(
    current: Extent2D,
    window: Extent2D,
    min: Extent2D,
    max: Extent2D,
) -> (r: Extent2D)
    requires
        current.width == u32::MAX ==> min.width <= max.width && min.height <= max.height,
    ensures
        r == extent_choice(current, window, min, max),
{
    if current.width != u32::MAX {
        current
    } else {
        Extent2D {
            width: clamp_u32(window.width, min.width, max.width),
            height: clamp_u32(window.height, min.height, max.height),
        }
    }
}

/// The swapchain takes the surface's extent where the surface fixes one;
/// where it leaves the extent to the window (width `u32::MAX`), each side is
/// the window's side held within the surface's limits: the window's side
/// itself when it lies within them, the nearest limit otherwise, and never
/// outside them.
pub proof fn lemma_extent_choice(current: Extent2D, window: Extent2D, min: Extent2D, max: Extent2D)
    requires
        min.width <= max.width,
        min.height <= max.height,
    ensures
        ({
            let r = extent_choice(current, window, min, max);
            &&& current.width != u32::MAX ==> r == current
            &&& current.width == u32::MAX ==> {
                &&& min.width <= r.width <= max.width
                &&& min.height <= r.height <= max.height
                &&& min.width <= window.width <= max.width ==> r.width == window.width
                &&& min.height <= window.height <= max.height ==> r.height == window.height
                &&& window.width < min.width ==> r.width == min.width
                &&& window.width > max.width ==> r.width == max.width
                &&& window.height < min.height ==> r.height == min.height
                &&& window.height > max.height ==> r.height == max.height
            }
        }),
{
}

/// How many images the swapchain asks for: at least three, but no more than
/// the surface allows (a maximum of `0` means no limit).
pub open spec fn image_count_choice(min_count: u32, max_count: u32) -> u32 {
    let wanted = if min_count > 3 {
        min_count
    } else {
        3
    };
    if max_count > 0 && wanted > max_count {
        max_count
    } else {
        wanted
    }
}

/// The swapchain asks for at least three images and at least the surface's
/// minimum, unless the surface's maximum (where it has one, `0` meaning
/// none) is lower, and then for exactly that maximum.
pub proof fn lemma_image_count_choice(min_count: u32, max_count: u32)
    ensures
        ({
            let r = image_count_choice(min_count, max_count);
            let wanted: int = if min_count > 3 { min_count as int } else { 3 };
            &&& (max_count == 0 || wanted <= max_count) ==> r == wanted
            &&& (max_count > 0 && wanted > max_count) ==> r == max_count
            &&& max_count > 0 ==> r <= max_count
            &&& r >= 3 || r == max_count
            &&& r >= min_count || r == max_count
        }),
{
}

/// Chooses how many images the swapchain asks for.
pub fn choose_min_image_count(min_count: u32, max_count: u32) -> (r: u32)
    ensures
        r == image_count_choice(min_count, max_count),
{
    let wanted = if min_count > 3 {
        min_count
    } else {
        3
    };
    if max_count > 0 && wanted > max_count {
        max_count
    } else {
        wanted
    }
}

/// What the renderer learns of a physical device before choosing it.
#[derive(Debug, Clone)]
pub struct DeviceReport {
    pub api_version: u32,
    /// The capability bits of each queue family.
    pub queue_flags: Vec<u32>,
    /// Whether each queue family can present to the surface.
    pub presentation: Vec<bool>,
    /// The names of the extensions the device offers.
    pub extensions: Vec<String>,
    pub timeline_semaphore: u32,
    pub synchronization2: u32,
    pub dynamic_rendering: u32,
    pub extended_dynamic_state: u32,
}

/// The device extensions the renderer needs.
pub open spec fn required_extensions() -> Seq<Seq<char>> {
    seq![
        "VK_KHR_swapchain"@,
        "VK_KHR_spirv_1_4"@,
        "VK_KHR_synchronization2"@,
        "VK_KHR_create_renderpass2"@,
    ]
}

/// Whether a device offers an extension of the given name.
pub open spec fn offers(extensions: Seq<String>, name: Seq<char>) -> bool {
    exists|i: int| 0 <= i < extensions.len() && (#[trigger] extensions[i])@ == name
}

/// Whether a device can run the renderer: API 1.4, a queue family that
/// presents, one with graphics and one with compute, every required
/// extension, and the timeline semaphore, synchronization2, dynamic
/// rendering and extended dynamic state features.
pub open spec fn suitable(d: DeviceReport) -> bool {
    &&& d.api_version >= REQUIRED_API_VERSION
    &&& exists|i: int| 0 <= i < d.presentation@.len() && #[trigger] d.presentation@[i]
    &&& exists|i: int|
        0 <= i < d.queue_flags@.len() && has_bits(#[trigger] d.queue_flags@[i], QUEUE_GRAPHICS)
    &&& exists|i: int|
        0 <= i < d.queue_flags@.len() && has_bits(#[trigger] d.queue_flags@[i], QUEUE_COMPUTE)
    &&& forall|k: int|
        0 <= k < required_extensions().len() ==> offers(
            d.extensions@,
            #[trigger] required_extensions()[k],
        )
    &&& d.timeline_semaphore != 0
    &&& d.synchronization2 != 0
    &&& d.dynamic_rendering != 0
    &&& d.extended_dynamic_state != 0
}

fn any_true(v: &Vec<bool>) -> (r: bool)
    ensures
        r == exists|i: int| 0 <= i < v@.len() && #[trigger] v@[i],
{
    let mut i: usize = 0;
    while i < v.len()
        invariant
            i <= v@.len(),
            forall|j: int| 0 <= j < i ==> !v@[j],
        decreases v@.len() - i,
    {
        if v[i] {
            return true;
        }
        i = i + 1;
    }
    false
}

fn any_with_bits(v: &Vec<u32>, bit: u32) -> (r: bool)
    ensures
        r == exists|i: int| 0 <= i < v@.len() && has_bits(#[trigger] v@[i], bit),
{
    let mut i: usize = 0;
    while i < v.len()
        invariant
            i <= v@.len(),
            forall|j: int| 0 <= j < i ==> !has_bits(#[trigger] v@[j], bit),
        decreases v@.len() - i,
    {
        if contains_bits(v[i], bit) {
            return true;
        }
        i = i + 1;
    }
    false
}

fn offers_extension(extensions: &Vec<String>, name: &str) -> (r: bool)
    ensures
        r == offers(extensions@, name@),
{
    let mut i: usize = 0;
    while i < extensions.len()
        invariant
            i <= extensions@.len(),
            forall|j: int| 0 <= j < i ==> (#[trigger] extensions@[j])@ != name@,
        decreases extensions@.len() - i,
    {
        if text_eq(extensions[i].as_str(), name) {
            return true;
        }
        i = i + 1;
    }
    false
}

/// Whether every name in `required` is among `available`, as the instance
/// checks its validation layers.
pub fn all_offered(required: &Vec<String>, available: &Vec<String>) -> (r: bool)
    ensures
        r == forall|k: int| 0 <= k < required@.len() ==> offers(available@, (#[trigger] required@[k])@),
{
    let mut i: usize = 0;
    while i < required.len()
        invariant
            i <= required@.len(),
            forall|k: int| 0 <= k < i ==> offers(available@, (#[trigger] required@[k])@),
        decreases required@.len() - i,
    {
        if !offers_extension(available, required[i].as_str()) {
            return false;
        }
        i = i + 1;
    }
    true
}

/// Whether a device offers every extension the renderer needs.
pub fn offers_required_extensions(extensions: &Vec<String>) -> (r: bool)
    ensures
        r == forall|k: int|
            0 <= k < required_extensions().len() ==> offers(
                extensions@,
                #[trigger] required_extensions()[k],
            ),
{
    let a = offers_extension(extensions, "VK_KHR_swapchain");
    let b = offers_extension(extensions, "VK_KHR_spirv_1_4");
    let c = offers_extension(extensions, "VK_KHR_synchronization2");
    let d = offers_extension(extensions, "VK_KHR_create_renderpass2");
    proof {
        let req = required_extensions();
        assert(req[0] == "VK_KHR_swapchain"@);
        assert(req[1] == "VK_KHR_spirv_1_4"@);
        assert(req[2] == "VK_KHR_synchronization2"@);
        assert(req[3] == "VK_KHR_create_renderpass2"@);
    }
    a && b && c && d
}

/// Decides whether a device can run the renderer, as [`suitable`] says.
pub fn device_suitable(d: &DeviceReport) -> (r: bool)
    ensures
        r == suitable(*d),
{
    let version_ok = d.api_version >= REQUIRED_API_VERSION;
    let presents = any_true(&d.presentation);
    let graphics = any_with_bits(&d.queue_flags, QUEUE_GRAPHICS);
    let compute = any_with_bits(&d.queue_flags, QUEUE_COMPUTE);
    let extensions = offers_required_extensions(&d.extensions);
    let features = d.timeline_semaphore != 0 && d.synchronization2 != 0 && d.dynamic_rendering
        != 0 && d.extended_dynamic_state != 0;
    version_ok && presents && graphics && compute && extensions && features
}

/// Picks the first device that can run the renderer. The renderer cannot
/// start without one, so at least one must be able to.
pub fn pick_physical_device(devices: &Vec<DeviceReport>) -> (r: usize)
    requires
        exists|j: int| 0 <= j < devices@.len() && suitable(#[trigger] devices@[j]),
    ensures
        r < devices@.len(),
        suitable(devices@[r as int]),
        forall|j: int| 0 <= j < r ==> !suitable(#[trigger] devices@[j]),
{
    let mut i: usize = 0;
    while i < devices.len()
        invariant
            i <= devices@.len(),
            forall|j: int| 0 <= j < i ==> !suitable(#[trigger] devices@[j]),
            exists|j: int| 0 <= j < devices@.len() && suitable(#[trigger] devices@[j]),
        decreases devices@.len() - i,
    {
        if device_suitable(&devices[i]) {
            return i;
        }
        i = i + 1;
    }
    proof {
        let j = choose|j: int| 0 <= j < devices@.len() && suitable(#[trigger] devices@[j]);
        assert(!suitable(devices@[j]));
    }
    0
}

/// The queue families the renderer takes its queues from.
#[derive(Debug, Clone, Copy, PartialEq, Eq, Structural)]
pub struct QueueFamilies {
    pub present: u32,
    pub graphics: u32,
    pub compute: u32,
}

/// `i` is the first index at which `p` holds.
pub open spec fn first_where(len: int, i: int, p: spec_fn(int) -> bool) -> bool {
    0 <= i < len && p(i) && forall|j: int| 0 <= j < i ==> !#[trigger] p(j)
}

/// Chooses the queue families: the first that presents, the first with
/// graphics, and for compute the first with compute other than the graphics
/// family, or failing that the first with compute. `None` where a family
/// is missing.
pub fn choose_queue_families(flags: &Vec<u32>, presentation: &Vec<bool>) -> (r: Option<
    QueueFamilies,
>)
    requires
        flags@.len() == presentation@.len(),
        flags@.len() <= u32::MAX,
    ensures
        match r {
            Some(q) => {
                &&& first_where(flags@.len() as int, q.present as int, |i: int| presentation@[i])
                &&& first_where(
                    flags@.len() as int,
                    q.graphics as int,
                    |i: int| has_bits(flags@[i], QUEUE_GRAPHICS),
                )
                &&& if exists|i: int|
                    0 <= i < flags@.len() && has_bits(#[trigger] flags@[i], QUEUE_COMPUTE) && i
                        != q.graphics {
                    first_where(
                        flags@.len() as int,
                        q.compute as int,
                        |i: int| has_bits(flags@[i], QUEUE_COMPUTE) && i != q.graphics,
                    )
                } else {
                    first_where(
                        flags@.len() as int,
                        q.compute as int,
                        |i: int| has_bits(flags@[i], QUEUE_COMPUTE),
                    )
                }
            },
            None => {
                ||| forall|i: int| 0 <= i < flags@.len() ==> !#[trigger] presentation@[i]
                ||| forall|i: int|
                    0 <= i < flags@.len() ==> !has_bits(#[trigger] flags@[i], QUEUE_GRAPHICS)
                ||| forall|i: int|
                    0 <= i < flags@.len() ==> !has_bits(#[trigger] flags@[i], QUEUE_COMPUTE)
            },
        },
{
    let n = flags.len();
    let p = match first_presenting(presentation) {
        Some(p) => p,
        None => {
            return None;
        },
    };
    let g = match first_with_bits(flags, QUEUE_GRAPHICS, None) {
        Some(g) => g,
        None => {
            return None;
        },
    };
    let c = match first_with_bits(flags, QUEUE_COMPUTE, Some(g)) {
        Some(c) => c,
        None => match first_with_bits(flags, QUEUE_COMPUTE, None) {
            Some(c) => c,
            None => {
                return None;
            },
        },
    };
    let r = QueueFamilies { present: p as u32, graphics: g as u32, compute: c as u32 };
    proof {
        let pf = |i: int| presentation@[i];
        let gf = |i: int| has_bits(flags@[i], QUEUE_GRAPHICS);
        assert(first_where(n as int, p as int, pf));
        assert(first_where(n as int, g as int, gf));
    }
    Some(r)
}

fn first_presenting(v: &Vec<bool>) -> (r: Option<usize>)
    ensures
        match r {
            Some(i) => i < v@.len() && v@[i as int] && forall|j: int| 0 <= j < i ==> !v@[j],
            None => forall|j: int| 0 <= j < v@.len() ==> !v@[j],
        },
{
    let mut i: usize = 0;
    while i < v.len()
        invariant
            i <= v@.len(),
            forall|j: int| 0 <= j < i ==> !v@[j],
        decreases v@.len() - i,
    {
        if v[i] {
            return Some(i);
        }
        i = i + 1;
    }
    None
}

fn first_with_bits(v: &Vec<u32>, bit: u32, skip: Option<usize>) -> (r: Option<usize>)
    ensures
        match r {
            Some(i) => i < v@.len() && has_bits(v@[i as int], bit) && skip != Some(i)
                && forall|j: int|
                0 <= j < i ==> !(has_bits(#[trigger] v@[j], bit) && skip != Some(j as usize)),
            None => forall|j: int|
                0 <= j < v@.len() ==> !(has_bits(#[trigger] v@[j], bit) && skip != Some(
                    j as usize,
                )),
        },
{
    let mut i: usize = 0;
    while i < v.len()
        invariant
            i <= v@.len(),
            forall|j: int|
                0 <= j < i ==> !(has_bits(#[trigger] v@[j], bit) && skip != Some(j as usize)),
        decreases v@.len() - i,
    {
        let skipped = match skip {
            Some(k) => k == i,
            None => false,
        };
        if contains_bits(v[i], bit) && !skipped {
            return Some(i);
        }
        i = i + 1;
    }
    None
}

/// A request for one queue at device creation.
#[derive(Debug, Clone, Copy, PartialEq, Eq, Structural)]
pub struct QueueRequest {
    pub family: u32,
    /// Present and graphics queues get the high priority, compute the low.
    pub high_priority: bool,
}

/// The queues requested at device creation: the present family's; the
/// graphics family's where it differs from the present one; the compute
/// family's where it differs from the graphics one.
pub open spec fn queue_requests_spec(q: QueueFamilies) -> Seq<QueueRequest> {
    let first = seq![QueueRequest { family: q.present, high_priority: true }];
    let with_graphics = if q.present != q.graphics {
        first.push(QueueRequest { family: q.graphics, high_priority: true })
    } else {
        first
    };
    if q.compute != q.graphics {
        with_graphics.push(QueueRequest { family: q.compute, high_priority: false })
    } else {
        with_graphics
    }
}

/// The queues requested cover every family used: the presentation family
/// first, at high priority, the graphics family at high priority, and the
/// compute family, at low priority where it has a family of its own apart
/// from graphics; no other family is requested.
pub proof fn lemma_queue_requests(q: QueueFamilies)
    ensures
        ({
            let r = queue_requests_spec(q);
            &&& 1 <= r.len() <= 3
            &&& r[0] == (QueueRequest { family: q.present, high_priority: true })
            &&& exists|i: int| 0 <= i < r.len() && r[i] == (QueueRequest { family: q.graphics, high_priority: true })
            &&& exists|i: int| 0 <= i < r.len() && (#[trigger] r[i]).family == q.compute
            &&& q.compute != q.graphics ==> r.last() == (QueueRequest { family: q.compute, high_priority: false })
            &&& forall|i: int| 0 <= i < r.len() ==> (#[trigger] r[i]).family == q.present || r[i].family == q.graphics
                || r[i].family == q.compute
        }),
{
    let r = queue_requests_spec(q);
    if q.present != q.graphics {
        assert(r[1] == (QueueRequest { family: q.graphics, high_priority: true }));
        if q.compute != q.graphics {
            assert(r[2].family == q.compute);
        } else {
            assert(r[1].family == q.compute);
        }
    } else {
        assert(r[0] == (QueueRequest { family: q.graphics, high_priority: true }));
        if q.compute != q.graphics {
            assert(r[1].family == q.compute);
        } else {
            assert(r[0].family == q.compute);
        }
    }
}

/// Lists the queues to request at device creation.
pub fn queue_requests(q: QueueFamilies) -> (r: Vec<QueueRequest>)
    ensures
        r@ == queue_requests_spec(q),
{
    let mut v: Vec<QueueRequest> = Vec::new();
    v.push(QueueRequest { family: q.present, high_priority: true });
    if q.present != q.graphics {
        v.push(QueueRequest { family: q.graphics, high_priority: true });
    }
    if q.compute != q.graphics {
        v.push(QueueRequest { family: q.compute, high_priority: false });
    }
    v
}

/// Where a queue (and its command pool) comes from: shared with the
/// present queue, shared with the graphics queue, or its own.
#[derive(Debug, Clone, Copy, PartialEq, Eq, Structural)]
pub enum QueueSource {
    Present,
    Graphics,
    Own,
}

/// Which queues are shared: the graphics queue with the present one when
/// their families agree; the compute queue with the present one, else with
/// the graphics one, when the families agree.
pub fn queue_sharing(q: QueueFamilies) -> (r: (QueueSource, QueueSource))
    ensures
        r.0 == (if q.graphics == q.present {
            QueueSource::Present
        } else {
            QueueSource::Own
        }),
        r.1 == (if q.compute == q.present {
            QueueSource::Present
        } else if q.compute == q.graphics {
            QueueSource::Graphics
        } else {
            QueueSource::Own
        }),
{
    let graphics = if q.graphics == q.present {
        QueueSource::Present
    } else {
        QueueSource::Own
    };
    let compute = if q.compute == q.present {
        QueueSource::Present
    } else if q.compute == q.graphics {
        QueueSource::Graphics
    } else {
        QueueSource::Own
    };
    (graphics, compute)
}

/// The depth formats tried, best first: `D32_SFLOAT`, `D32_SFLOAT_S8_UINT`,
/// `D24_UNORM_S8_UINT`.
pub open spec fn depth_candidates_spec() -> Seq<i32> {
    seq![126i32, 130i32, 129i32]
}

/// The depth formats tried, best first.
pub fn depth_format_candidates() -> (r: Vec<i32>)
    ensures
        r@ == depth_candidates_spec(),
{
    let mut v: Vec<i32> = Vec::new();
    v.push(126);
    v.push(130);
    v.push(129);
    proof {
        assert(v@ =~= depth_candidates_spec());
    }
    v
}

/// Picks the first candidate format whose optimal-tiling features allow a
/// depth attachment; each entry pairs a format with those features. `None`
/// where none does.
pub fn choose_depth_format(candidates: &Vec<(i32, u32)>) -> (r: Option<i32>)
    ensures
        match r {
            Some(f) => exists|i: int|
                0 <= i < candidates@.len() && candidates@[i].0 == f && has_bits(
                    #[trigger] candidates@[i].1,
                    FEATURE_DEPTH_STENCIL_ATTACHMENT,
                ) && forall|j: int|
                    0 <= j < i ==> !has_bits(
                        #[trigger] candidates@[j].1,
                        FEATURE_DEPTH_STENCIL_ATTACHMENT,
                    ),
            None => forall|j: int|
                0 <= j < candidates@.len() ==> !has_bits(
                    #[trigger] candidates@[j].1,
                    FEATURE_DEPTH_STENCIL_ATTACHMENT,
                ),
        },
{
    let mut i: usize = 0;
    while i < candidates.len()
        invariant
            i <= candidates@.len(),
            forall|j: int|
                0 <= j < i ==> !has_bits(
                    #[trigger] candidates@[j].1,
                    FEATURE_DEPTH_STENCIL_ATTACHMENT,
                ),
        decreases candidates@.len() - i,
    {
        let (format, features) = candidates[i];
        if contains_bits(features, FEATURE_DEPTH_STENCIL_ATTACHMENT) {
            return Some(format);
        }
        i = i + 1;
    }
    None
}

/// The access masks and pipeline stages of an image layout transition.
#[derive(Debug, Clone, Copy, PartialEq, Eq, Structural)]
pub struct LayoutBarrier {
    pub src_access: u32,
    pub dst_access: u32,
    pub src_stage: u32,
    pub dst_stage: u32,
}

/// Image layouts: `UNDEFINED`, `SHADER_READ_ONLY_OPTIMAL`, `TRANSFER_DST_OPTIMAL`.
pub const LAYOUT_UNDEFINED: i32 = 0;

/// Vulkan access flag: no access.
pub const ACCESS_NONE: u32 = 0;

/// Vulkan access flag `SHADER_READ`.
pub const ACCESS_SHADER_READ: u32 = 0x20;

/// Vulkan access flag `TRANSFER_WRITE`.
pub const ACCESS_TRANSFER_WRITE: u32 = 0x1000;

/// Vulkan pipeline stage `TOP_OF_PIPE`.
pub const STAGE_TOP_OF_PIPE: u32 = 0x1;

/// Vulkan pipeline stage `FRAGMENT_SHADER`.
pub const STAGE_FRAGMENT_SHADER: u32 = 0x80;

/// Vulkan pipeline stage `TRANSFER`.
pub const STAGE_TRANSFER: u32 = 0x1000;

/// The layout of an image sampled by shaders.
pub const LAYOUT_SHADER_READ_ONLY_OPTIMAL: i32 = 5;

/// The layout of an image written by transfers.
pub const LAYOUT_TRANSFER_DST_OPTIMAL: i32 = 7;

/// The barrier of a supported layout transition: from undefined to
/// transfer destination (nothing, then transfer writes; top of pipe to
/// transfer), or from transfer destination to shader-read (transfer writes,
/// then shader reads; transfer to fragment shader).
pub open spec fn transition_barrier(old: i32, new: i32) -> Option<LayoutBarrier> {
    if old == LAYOUT_UNDEFINED && new == LAYOUT_TRANSFER_DST_OPTIMAL {
        Some(LayoutBarrier { src_access: 0, dst_access: 0x1000, src_stage: 0x1, dst_stage: 0x1000 })
    } else if old == LAYOUT_TRANSFER_DST_OPTIMAL && new == LAYOUT_SHADER_READ_ONLY_OPTIMAL {
        Some(
            LayoutBarrier { src_access: 0x1000, dst_access: 0x20, src_stage: 0x1000, dst_stage: 0x80 },
        )
    } else {
        None
    }
}

/// Only two layout transitions are supported. Undefined to transfer
/// destination waits for nothing (no access, top of the pipe) and makes
/// transfer writes (transfer stage) wait; transfer destination to
/// shader-read makes fragment-shader reads wait for the transfer writes.
pub proof fn lemma_transition_barrier(old: i32, new: i32)
    ensures
        transition_barrier(old, new) is Some <==> ((old == LAYOUT_UNDEFINED && new == LAYOUT_TRANSFER_DST_OPTIMAL)
            || (old == LAYOUT_TRANSFER_DST_OPTIMAL && new == LAYOUT_SHADER_READ_ONLY_OPTIMAL)),
        (old == LAYOUT_UNDEFINED && new == LAYOUT_TRANSFER_DST_OPTIMAL) ==> transition_barrier(old, new) == Some(
            LayoutBarrier {
                src_access: ACCESS_NONE,
                dst_access: ACCESS_TRANSFER_WRITE,
                src_stage: STAGE_TOP_OF_PIPE,
                dst_stage: STAGE_TRANSFER,
            },
        ),
        (old == LAYOUT_TRANSFER_DST_OPTIMAL && new == LAYOUT_SHADER_READ_ONLY_OPTIMAL) ==> transition_barrier(old, new)
            == Some(
            LayoutBarrier {
                src_access: ACCESS_TRANSFER_WRITE,
                dst_access: ACCESS_SHADER_READ,
                src_stage: STAGE_TRANSFER,
                dst_stage: STAGE_FRAGMENT_SHADER,
            },
        ),
{
}

/// The barrier for a layout transition; other transitions are an error.
pub fn layout_transition(old: i32, new: i32) -> (r: Result<LayoutBarrier, String>)
    ensures
        match transition_barrier(old, new) {
            Some(b) => r == Ok::<LayoutBarrier, String>(b),
            None => r matches Err(e) && e@ == "unsupported layout transition!"@,
        },
{
    if old == LAYOUT_UNDEFINED && new == LAYOUT_TRANSFER_DST_OPTIMAL {
        Ok(LayoutBarrier { src_access: 0, dst_access: 0x1000, src_stage: 0x1, dst_stage: 0x1000 })
    } else if old == LAYOUT_TRANSFER_DST_OPTIMAL && new == LAYOUT_SHADER_READ_ONLY_OPTIMAL {
        Ok(LayoutBarrier { src_access: 0x1000, dst_access: 0x20, src_stage: 0x1000, dst_stage: 0x80 })
    } else {
        Err(String::from_str("unsupported layout transition!"))
    }
}

/// One mip level's region of a buffer-to-image copy.
#[derive(Debug, Clone, Copy, PartialEq, Eq, Structural)]
pub struct MipRegion {
    pub offset: u64,
    pub level: u32,
    pub width: u32,
    pub height: u32,
}

/// The size of a mip level along one side: halved per level, never below 1.
pub open spec fn mip_side(side: u32, level: u32) -> u32 {
    if side >> level > 1 {
        side >> level
    } else {
        1
    }
}

/// The first mip level has the image's own size (at least 1), and no level
/// is smaller than 1 or larger than the first.
pub proof fn lemma_mip_side_bounds(side: u32, level: u32)
    requires
        level < 32,
    ensures
        mip_side(side, 0) == if side > 1 { side } else { 1 },
        1 <= mip_side(side, level) <= mip_side(side, 0),
{
    assert(side >> 0u32 == side) by (bit_vector);
    assert(side >> level <= side) by (bit_vector);
}

/// Each mip level is half the size of the one before, rounded down, but
/// never below 1.
pub proof fn lemma_mip_side_halves(side: u32, level: u32)
    requires
        level < 31,
    ensures
        mip_side(side, (level + 1) as u32) == if mip_side(side, level) / 2 > 1 {
            mip_side(side, level) / 2
        } else {
            1
        },
{
    let next = (level + 1) as u32;
    assert(side >> next == (side >> level) / 2) by (bit_vector)
        requires
            level < 31,
            next == level + 1,
    ;
}

/// The regions copied for each mip level, each at its own offset.
pub fn mip_regions(width: u32, height: u32, mip_levels: u32, offsets: &Vec<u64>) -> (r: Vec<
    MipRegion,
>)
    requires
        mip_levels <= 32,
        mip_levels <= offsets@.len(),
    ensures
        r@.len() == mip_levels,
        forall|l: int|
            0 <= l < mip_levels ==> #[trigger] r@[l] == (MipRegion {
                offset: offsets@[l],
                level: l as u32,
                width: mip_side(width, l as u32),
                height: mip_side(height, l as u32),
            }),
{
    let mut regions: Vec<MipRegion> = Vec::new();
    let mut level: u32 = 0;
    while level < mip_levels
        invariant
            level <= mip_levels <= 32,
            mip_levels <= offsets@.len(),
            regions@.len() == level,
            forall|l: int|
                0 <= l < level ==> #[trigger] regions@[l] == (MipRegion {
                    offset: offsets@[l],
                    level: l as u32,
                    width: mip_side(width, l as u32),
                    height: mip_side(height, l as u32),
                }),
        decreases mip_levels - level,
    {
        let w = width >> level;
        let h = height >> level;
        regions.push(
            MipRegion {
                offset: offsets[level as usize],
                level,
                width: if w > 1 {
                    w
                } else {
                    1
                },
                height: if h > 1 {
                    h
                } else {
                    1
                },
            },
        );
        level = level + 1;
    }
    regions
}

/// The 32-bit little-endian word at `k` in `bytes`.
pub open spec fn le_word(bytes: Seq<u8>, k: int) -> u32 {
    (bytes[4 * k] + 256 * bytes[4 * k + 1] + 65536 * bytes[4 * k + 2] + 16777216 * bytes[4 * k
        + 3]) as u32
}

/// A shader word is read little-endian: its lowest byte comes first and its
/// highest last.
pub proof fn lemma_le_word(bytes: Seq<u8>, k: int)
    requires
        0 <= k,
        4 * k + 3 < bytes.len(),
    ensures
        le_word(bytes, k) % 256 == bytes[4 * k],
        le_word(bytes, k) / 256 % 256 == bytes[4 * k + 1],
        le_word(bytes, k) / 65536 % 256 == bytes[4 * k + 2],
        le_word(bytes, k) / 16777216 == bytes[4 * k + 3],
{
}

/// The words of a compiled shader: each four bytes read as a little-endian
/// word, and a trailing part word dropped.
pub fn spirv_words(bytes: &Vec<u8>) -> (r: Vec<u32>)
    ensures
        r@.len() == bytes@.len() / 4,
        forall|k: int| 0 <= k < r@.len() ==> #[trigger] r@[k] == le_word(bytes@, k),
{
    let len = bytes.len();
    let n = len / 4;
    let mut words: Vec<u32> = Vec::new();
    let mut k: usize = 0;
    while k < n
        invariant
            len == bytes@.len(),
            n == bytes@.len() / 4,
            k <= n,
            words@.len() == k,
            forall|j: int| 0 <= j < k ==> #[trigger] words@[j] == le_word(bytes@, j),
        decreases n - k,
    {
        assert(4 * k + 4 <= bytes@.len()) by (nonlinear_arith)
            requires
                k < n,
                n == bytes@.len() / 4,
        ;
        let j = 4 * k;
        let w = bytes[j] as u32 + 256 * (bytes[j + 1] as u32) + 65536 * (bytes[j + 2] as u32)
            + 16777216 * (bytes[j + 3] as u32);
        words.push(w);
        k = k + 1;
    }
    words
}

/// The counters that pace the frames: which of the frames in flight is
/// being drawn, and the value the timeline semaphore last reached.
#[derive(Debug, Clone, Copy, PartialEq, Eq, Structural)]
pub struct FrameCounters {
    pub current_frame: u32,
    pub timeline_value: u64,
}

impl FrameCounters {
    /// The frame index names one of the frames in flight.
    pub open spec fn wf(self) -> bool {
        self.current_frame < FRAMES_IN_FLIGHT
    }

    /// The counters before the first frame.
    pub fn new() -> (r: Self)
        ensures
            r.wf(),
            r.current_frame == 0,
            r.timeline_value == 0,
    {
        FrameCounters { current_frame: 0, timeline_value: 0 }
    }

    /// Starts a frame's GPU work: returns the timeline value it waits for and
    /// the one it signals, one past it.
    pub fn advance_timeline(&mut self) -> (r: (u64, u64))
        requires
            old(self).timeline_value < u64::MAX,
        ensures
            r.0 == old(self).timeline_value,
            r.1 == old(self).timeline_value + 1,
            final(self).timeline_value == r.1,
            final(self).current_frame == old(self).current_frame,
    {
        let wait = self.timeline_value;
        self.timeline_value = self.timeline_value + 1;
        (wait, self.timeline_value)
    }

    /// Moves on to the next frame in flight.
    pub fn next_frame(&mut self)
        requires
            old(self).wf(),
        ensures
            final(self).wf(),
            final(self).current_frame == (old(self).current_frame + 1) % (FRAMES_IN_FLIGHT as int),
            final(self).timeline_value == old(self).timeline_value,
    {
        self.current_frame = (self.current_frame + 1) % FRAMES_IN_FLIGHT;
    }
}

/// Moving on by as many frames as there are in flight comes back to the
/// same frame.
pub proof fn lemma_frames_cycle(f: u32)
    requires
        f < FRAMES_IN_FLIGHT,
    ensures
        ((f + 1) % (FRAMES_IN_FLIGHT as int) + 1) % (FRAMES_IN_FLIGHT as int) == f,
{
}

/// The index count and first index of the frame's draw call: the count cut
/// to 32 bits, and the value of the first index. `None` where there are no
/// indices (the renderer stops there).
pub fn draw_arguments(indices: &Vec<u32>) -> (r: Option<(u32, u32)>)
    ensures
        indices@.len() == 0 ==> r is None,
        indices@.len() > 0 ==> r == Some((indices@.len() as u32, indices@[0])),
{
    if indices.len() == 0 {
        return None;
    }
    #[verifier::truncate]
    let count = indices.len() as u32;
    Some((count, indices[0]))
}

} // verus!
