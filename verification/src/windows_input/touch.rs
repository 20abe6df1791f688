//! Touch contacts, as the system takes them.

use vstd::prelude::*;
use crate::windows_input::inject;
use crate::windows_input::inject::VirtualScreen;

verus! {

pub const POINTER_INPUT_TYPE_TOUCH: u32 = 2;

pub const POINTER_FLAG_INRANGE: u32 = 0x0000_0002;

pub const POINTER_FLAG_INCONTACT: u32 = 0x0000_0004;

pub const POINTER_FLAG_DOWN: u32 = 0x0001_0000;

pub const POINTER_FLAG_UPDATE: u32 = 0x0002_0000;

pub const POINTER_FLAG_UP: u32 = 0x0004_0000;

pub const TOUCH_MASK_CONTACTAREA: u32 = 0x0000_0001;

pub const TOUCH_MASK_ORIENTATION: u32 = 0x0000_0002;

pub const TOUCH_MASK_PRESSURE: u32 = 0x0000_0004;

pub const TOUCH_FEEDBACK_NONE: u32 = 0x0000_0003;

/// The flags of contacts that go down.
pub const TOUCH_DOWN: u32 = POINTER_FLAG_INRANGE | POINTER_FLAG_INCONTACT | POINTER_FLAG_DOWN;

/// The flags of contacts that move.
pub const TOUCH_UPDATE: u32 = POINTER_FLAG_INRANGE | POINTER_FLAG_INCONTACT | POINTER_FLAG_UPDATE;

/// The flags of contacts that are lifted.
pub const TOUCH_UP: u32 = POINTER_FLAG_INRANGE | POINTER_FLAG_UP;

/// What a contact is said to be known of: its area, its orientation and its
/// pressure.
pub const TOUCH_MASK: u32 = TOUCH_MASK_CONTACTAREA | TOUCH_MASK_ORIENTATION | TOUCH_MASK_PRESSURE;

/// How far a contact reaches around its point.
pub const CONTACT_RADIUS: i32 = 2;

/// A point on the desktop.
#[derive(Debug, Clone, Copy, PartialEq, Eq, Structural)]
pub struct Point {
    pub x: i32,
    pub y: i32,
}

/// A rectangle on the desktop.
#[derive(Debug, Clone, Copy, PartialEq, Eq, Structural)]
pub struct Rect {
    pub left: i32,
    pub top: i32,
    pub right: i32,
    pub bottom: i32,
}

/// A pointer record as the system takes it, apart from the handles in it, which
/// are all null.
#[derive(Debug, Clone, Copy, PartialEq, Eq, Structural)]
pub struct PointerInfo {
    pub pointer_type: u32,
    pub pointer_id: u32,
    pub frame_id: u32,
    pub pointer_flags: u32,
    pub pixel_location: Point,
    pub himetric_location: Point,
    pub pixel_location_raw: Point,
    pub himetric_location_raw: Point,
    pub time: u32,
    pub history_count: u32,
    pub input_data: i32,
    pub key_states: u32,
    pub performance_count: u64,
    pub button_change_type: u32,
}

/// A touch record as the system takes it.
#[derive(Debug, Clone, Copy, PartialEq, Eq, Structural)]
pub struct PointerTouchInfo {
    pub pointer_info: PointerInfo,
    pub touch_flags: u32,
    pub touch_mask: u32,
    pub contact: Rect,
    pub contact_raw: Rect,
    pub orientation: u32,
    pub pressure: u32,
}

/// The places of two contacts.
#[derive(Debug, Clone, Copy, PartialEq, Eq, Structural)]
pub struct TouchPoints {
    pub first: Point,
    pub second: Point,
}

/// Whether the area of a contact at `point` has coordinates.
pub open spec fn contactable(point: Point) -> bool {
    &&& i32::MIN + CONTACT_RADIUS <= point.x <= i32::MAX - CONTACT_RADIUS
    &&& i32::MIN + CONTACT_RADIUS <= point.y <= i32::MAX - CONTACT_RADIUS
}

/// The area of a contact at `point`.
pub open spec fn contact_area(point: Point) -> Rect {
    Rect {
        left: (point.x - CONTACT_RADIUS) as i32,
        top: (point.y - CONTACT_RADIUS) as i32,
        right: (point.x + CONTACT_RADIUS) as i32,
        bottom: (point.y + CONTACT_RADIUS) as i32,
    }
}

/// The record of a contact.
pub open spec fn contact_record(pointer_id: u32, point: Point, flags: u32) -> PointerTouchInfo {
    PointerTouchInfo {
        pointer_info: PointerInfo {
            pointer_type: POINTER_INPUT_TYPE_TOUCH,
            pointer_id,
            frame_id: 0,
            pointer_flags: flags,
            pixel_location: point,
            himetric_location: Point { x: 0, y: 0 },
            pixel_location_raw: point,
            himetric_location_raw: Point { x: 0, y: 0 },
            time: 0,
            history_count: 0,
            input_data: 0,
            key_states: 0,
            performance_count: 0,
            button_change_type: 0,
        },
        touch_flags: 0,
        touch_mask: TOUCH_MASK,
        contact: contact_area(point),
        contact_raw: contact_area(point),
        orientation: 90,
        pressure: 32_000,
    }
}

/// The record of the contact `pointer_id` at (`x`, `y`).
pub fn touch_contact(pointer_id: u32, x: i32, y: i32, flags: u32) -> (contact: PointerTouchInfo)
    requires
        contactable(Point { x, y }),
    ensures
        contact == contact_record(pointer_id, Point { x, y }, flags),
{
    let point = Point { x, y };
    let area = Rect {
        left: x - CONTACT_RADIUS,
        top: y - CONTACT_RADIUS,
        right: x + CONTACT_RADIUS,
        bottom: y + CONTACT_RADIUS,
    };
    PointerTouchInfo {
        pointer_info: PointerInfo {
            pointer_type: POINTER_INPUT_TYPE_TOUCH,
            pointer_id,
            frame_id: 0,
            pointer_flags: flags,
            pixel_location: point,
            himetric_location: Point { x: 0, y: 0 },
            pixel_location_raw: point,
            himetric_location_raw: Point { x: 0, y: 0 },
            time: 0,
            history_count: 0,
            input_data: 0,
            key_states: 0,
            performance_count: 0,
            button_change_type: 0,
        },
        touch_flags: 0,
        touch_mask: TOUCH_MASK,
        contact: area,
        contact_raw: area,
        orientation: 90,
        pressure: 32_000,
    }
}

/// Whether both contacts at `points` have areas.
pub open spec fn touchable(points: TouchPoints) -> bool {
    contactable(points.first) && contactable(points.second)
}

/// Whether both contacts at `points` have areas.
pub fn can_touch(points: &TouchPoints) -> (can: bool)
    ensures
        can == touchable(*points),
{
    let low: i32 = i32::MIN + CONTACT_RADIUS;
    let high: i32 = i32::MAX - CONTACT_RADIUS;
    low <= points.first.x && points.first.x <= high && low <= points.first.y && points.first.y
        <= high && low <= points.second.x && points.second.x <= high && low <= points.second.y
        && points.second.y <= high
}

/// The records of two contacts at `points`.
pub open spec fn frame_records(points: TouchPoints, flags: u32) -> Seq<PointerTouchInfo> {
    seq![contact_record(1, points.first, flags), contact_record(2, points.second, flags)]
}

/// The frame of two contacts.
pub fn inject_touch_frame(points: &TouchPoints, flags: u32) -> (contacts: Vec<PointerTouchInfo>)
    requires
        contactable(points.first),
        contactable(points.second),
    ensures
        contacts@ == frame_records(*points, flags),
{
    let mut contacts: Vec<PointerTouchInfo> = Vec::new();
    contacts.push(touch_contact(1, points.first.x, points.first.y, flags));
    contacts.push(touch_contact(2, points.second.x, points.second.y, flags));
    assert(contacts@ =~= frame_records(*points, flags));
    contacts
}

/// The last pixel of a screen that begins at `origin`.
pub open spec fn far_edge(origin: int, extent: int) -> int {
    origin + if extent >= 1 {
        extent - 1
    } else {
        0
    }
}

/// The lowest coordinate that a contact is put at.
pub open spec fn near_bound(origin: int, extent: int) -> int {
    if origin + CONTACT_RADIUS <= far_edge(origin, extent) {
        origin + CONTACT_RADIUS
    } else {
        far_edge(origin, extent)
    }
}

/// The highest coordinate that a contact is put at.
pub open spec fn far_bound(origin: int, extent: int) -> int {
    if far_edge(origin, extent) - CONTACT_RADIUS >= near_bound(origin, extent) {
        far_edge(origin, extent) - CONTACT_RADIUS
    } else {
        near_bound(origin, extent)
    }
}

/// `pos`, moved onto a screen so that a contact there lies on it.
pub open spec fn kept_on(pos: int, origin: int, extent: int) -> int {
    inject::clamped(pos, near_bound(origin, extent), far_bound(origin, extent))
}

/// Whether all coordinates of a screen along one axis can be told in 32 bits,
/// with room for the area of a contact at either end.
pub open spec fn axis_fits(origin: i32, extent: i32) -> bool {
    &&& origin + CONTACT_RADIUS <= i32::MAX
    &&& origin + if extent >= 1 {
        extent as int
    } else {
        1
    } <= i32::MAX
    &&& far_edge(origin as int, extent as int) - CONTACT_RADIUS >= i32::MIN
}

/// Whether the contacts of a pinch can be placed: the screen, and the places
/// before they are moved onto it, can be told in 32 bits.
pub open spec fn placeable(center_x: i32, half: i32, screen: VirtualScreen) -> bool {
    &&& axis_fits(screen.x, screen.width)
    &&& axis_fits(screen.y, screen.height)
    &&& i32::MIN <= center_x - half <= i32::MAX
    &&& i32::MIN <= center_x + half <= i32::MAX
}

fn fits_axis(origin: i32, extent: i32) -> (fits: bool)
    ensures
        fits == axis_fits(origin, extent),
{
    let start: i64 = origin as i64;
    let size: i64 = if extent >= 1 {
        extent as i64
    } else {
        1
    };
    let radius: i64 = CONTACT_RADIUS as i64;
    start + radius <= i32::MAX as i64 && start + size <= i32::MAX as i64 && start + size - 1
        - radius >= i32::MIN as i64
}

/// Whether the contacts of a pinch can be placed.
pub fn can_place(center_x: i32, half: i32, screen: &VirtualScreen) -> (can: bool)
    ensures
        can == placeable(center_x, half, *screen),
{
    fits_axis(screen.x, screen.width) && fits_axis(screen.y, screen.height) && center_x.checked_sub(
        half,
    ).is_some() && center_x.checked_add(half).is_some()
}

fn keep_on(pos: i32, origin: i32, extent: i32) -> (kept: i32)
    requires
        axis_fits(origin, extent),
    ensures
        kept == kept_on(pos as int, origin as int, extent as int),
{
    let size: i32 = if extent >= 1 {
        extent
    } else {
        1
    };
    let edge: i32 = origin + size - 1;
    let low: i32 = if origin + CONTACT_RADIUS <= edge {
        origin + CONTACT_RADIUS
    } else {
        edge
    };
    let high: i32 = if edge - CONTACT_RADIUS >= low {
        edge - CONTACT_RADIUS
    } else {
        low
    };
    if pos < low {
        low
    } else if pos > high {
        high
    } else {
        pos
    }
}

/// The places of the two contacts of a pinch: `half` to the left and to the
/// right of the centre, moved onto the screen.
pub open spec fn pinch_places(center_x: i32, center_y: i32, half: i32, screen: VirtualScreen) -> TouchPoints {
    let y = kept_on(center_y as int, screen.y as int, screen.height as int) as i32;
    TouchPoints {
        first: Point {
            x: kept_on(center_x - half, screen.x as int, screen.width as int) as i32,
            y,
        },
        second: Point {
            x: kept_on(center_x + half, screen.x as int, screen.width as int) as i32,
            y,
        },
    }
}

/// The places of the two contacts of a pinch whose contacts are twice `half`
/// apart.
pub fn pinch_points(center_x: i32, center_y: i32, half: i32, screen: &VirtualScreen) -> (points:
    TouchPoints)
    requires
        placeable(center_x, half, *screen),
    ensures
        points == pinch_places(center_x, center_y, half, *screen),
{
    let y: i32 = keep_on(center_y, screen.y, screen.height);
    TouchPoints {
        first: Point { x: keep_on(center_x - half, screen.x, screen.width), y },
        second: Point { x: keep_on(center_x + half, screen.x, screen.width), y },
    }
}

/// Whether `area` lies on the screen.
pub open spec fn lies_on(area: Rect, screen: VirtualScreen) -> bool {
    &&& screen.x <= area.left
    &&& area.right <= far_edge(screen.x as int, screen.width as int)
    &&& screen.y <= area.top
    &&& area.bottom <= far_edge(screen.y as int, screen.height as int)
}

/// On a screen that has room for a contact, the contacts of a pinch lie on the
/// screen, wherever its centre is, and their areas have coordinates.
pub proof fn contacts_lie_on_the_screen(
    center_x: i32,
    center_y: i32,
    half: i32,
    screen: VirtualScreen,
)
    requires
        placeable(center_x, half, screen),
        screen.width > 2 * CONTACT_RADIUS,
        screen.height > 2 * CONTACT_RADIUS,
    ensures
        ({
            let points = pinch_places(center_x, center_y, half, screen);
            &&& contactable(points.first)
            &&& contactable(points.second)
            &&& lies_on(contact_area(points.first), screen)
            &&& lies_on(contact_area(points.second), screen)
        }),
{
}

/// The contacts of a pinch are at the same height, and the first is not to the
/// right of the second.
pub proof fn contacts_are_level(center_x: i32, center_y: i32, half: i32, screen: VirtualScreen)
    requires
        placeable(center_x, half, screen),
        half >= 0,
    ensures
        ({
            let points = pinch_places(center_x, center_y, half, screen);
            &&& points.first.y == points.second.y
            &&& points.first.x <= points.second.x
        }),
{
}

/// The record of a contact is that of a touch, with its number and flags; it is
/// at its point, reaches two pixels around it, and everything that is not said
/// of it is zero.
pub proof fn contact_records_say_where_they_are(pointer_id: u32, point: Point, flags: u32)
    requires
        contactable(point),
    ensures
        ({
            let record = contact_record(pointer_id, point, flags);
            let info = record.pointer_info;
            &&& info.pointer_type == 2
            &&& info.pointer_id == pointer_id
            &&& info.pointer_flags == flags
            &&& info.pixel_location == point
            &&& info.pixel_location_raw == point
            &&& info.himetric_location.x == 0 && info.himetric_location.y == 0
            &&& info.himetric_location_raw.x == 0 && info.himetric_location_raw.y == 0
            &&& info.frame_id == 0 && info.time == 0 && info.history_count == 0
            &&& info.input_data == 0 && info.key_states == 0
            &&& info.performance_count == 0 && info.button_change_type == 0
            &&& record.touch_flags == 0
            &&& record.touch_mask == 7
            &&& record.contact == record.contact_raw
            &&& record.contact.left == point.x - 2 && record.contact.right == point.x + 2
            &&& record.contact.top == point.y - 2 && record.contact.bottom == point.y + 2
            &&& record.orientation == 90
            &&& record.pressure == 32000
        }),
{
    assert(1u32 | 2u32 | 4u32 == 7u32) by (bit_vector);
}

/// The flags of contacts that go down, move and are lifted: all are in range,
/// those that are lifted are not in contact.
pub proof fn touch_flags_are_these()
    ensures
        TOUCH_DOWN == 0x1_0006,
        TOUCH_UPDATE == 0x2_0006,
        TOUCH_UP == 0x4_0002,
{
    assert(2u32 | 4u32 | 0x1_0000u32 == 0x1_0006u32) by (bit_vector);
    assert(2u32 | 4u32 | 0x2_0000u32 == 0x2_0006u32) by (bit_vector);
    assert(2u32 | 0x4_0000u32 == 0x4_0002u32) by (bit_vector);
}

/// Whether `place` is where a contact that belongs at `wanted` is put between
/// `low` and `high`: there, or at the nearer end.
pub open spec fn is_nearest(place: int, wanted: int, low: int, high: int) -> bool {
    &&& low <= wanted <= high ==> place == wanted
    &&& wanted < low ==> place == low
    &&& wanted > high && wanted >= low ==> place == high
}

/// On a screen with room for a contact, the contacts of a pinch are `half` to the
/// left and to the right of its centre, at its height, or where they are nearest
/// to that with their areas on the screen.
pub proof fn contacts_are_near_their_place(
    center_x: i32,
    center_y: i32,
    half: i32,
    screen: VirtualScreen,
)
    requires
        placeable(center_x, half, screen),
        screen.width >= 5,
        screen.height >= 5,
    ensures
        ({
            let points = pinch_places(center_x, center_y, half, screen);
            let left = screen.x + 2;
            let right = screen.x + screen.width - 3;
            let top = screen.y + 2;
            let bottom = screen.y + screen.height - 3;
            &&& is_nearest(points.first.x as int, center_x - half, left, right)
            &&& is_nearest(points.second.x as int, center_x + half, left, right)
            &&& is_nearest(points.first.y as int, center_y as int, top, bottom)
            &&& is_nearest(points.second.y as int, center_y as int, top, bottom)
        }),
{
}

/// On a screen that is too small for a contact, along either axis, both contacts
/// are put at the third pixel along it, or at the last one if there is none.
pub proof fn contacts_on_small_screens_coincide(
    center_x: i32,
    center_y: i32,
    half: i32,
    screen: VirtualScreen,
)
    requires
        placeable(center_x, half, screen),
    ensures
        ({
            let points = pinch_places(center_x, center_y, half, screen);
            &&& screen.width < 5 ==> points.first.x == points.second.x && points.first.x == screen.x
                + (if screen.width >= 3 {
                2int
            } else if screen.width == 2 {
                1int
            } else {
                0int
            })
            &&& screen.height < 5 ==> points.first.y == points.second.y && points.first.y
                == screen.y + (if screen.height >= 3 {
                2int
            } else if screen.height == 2 {
                1int
            } else {
                0int
            })
        }),
{
}

/// A frame holds both contacts, the first under number one and the second under
/// number two, each at its own place and both with the flags of the frame.
pub proof fn frames_hold_both_contacts(points: TouchPoints, flags: u32)
    ensures
        ({
            let records = frame_records(points, flags);
            &&& records.len() == 2
            &&& records[0] == contact_record(1, points.first, flags)
            &&& records[1] == contact_record(2, points.second, flags)
            &&& records[0].pointer_info.pixel_location == points.first
            &&& records[1].pointer_info.pixel_location == points.second
            &&& records[0].pointer_info.pointer_flags == flags
            &&& records[1].pointer_info.pointer_flags == flags
        }),
{
}

/// A contact has an area wherever two more pixels to every side have coordinates,
/// and contacts can be placed wherever no sum on the way takes more than 32 bits.
pub proof fn places_are_bounded_by_their_coordinates(
    point: Point,
    center_x: i32,
    half: i32,
    screen: VirtualScreen,
)
    ensures
        contactable(point) <==> (-0x7FFF_FFFE <= point.x <= 0x7FFF_FFFD && -0x7FFF_FFFE <= point.y
            <= 0x7FFF_FFFD),
        placeable(center_x, half, screen) <==> {
            let width = if screen.width > 0 {
                screen.width as int
            } else {
                1
            };
            let height = if screen.height > 0 {
                screen.height as int
            } else {
                1
            };
            &&& -0x8000_0000 <= center_x - half <= 0x7FFF_FFFF
            &&& -0x8000_0000 <= center_x + half <= 0x7FFF_FFFF
            &&& screen.x + 2 <= 0x7FFF_FFFF && screen.x + width <= 0x7FFF_FFFF
            &&& screen.x + width - 3 >= -0x8000_0000
            &&& screen.y + 2 <= 0x7FFF_FFFF && screen.y + height <= 0x7FFF_FFFF
            &&& screen.y + height - 3 >= -0x8000_0000
        },
{
}

/// Two contacts have areas exactly if each of them has one.
pub proof fn both_contacts_need_an_area(a: Point, b: Point)
    ensures
        touchable(TouchPoints { first: a, second: b }) == touchable(
            TouchPoints { first: b, second: a },
        ),
        touchable(TouchPoints { first: a, second: a }) <==> -0x7FFF_FFFE <= a.x <= 0x7FFF_FFFD
            && -0x7FFF_FFFE <= a.y <= 0x7FFF_FFFD,
        touchable(TouchPoints { first: a, second: b }) <==> contactable(a) && contactable(b),
{
}

} // verus!
