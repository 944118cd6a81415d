use vstd::prelude::*;
use crate::game_manager::ArchipelagoData;
use crate::mapping::OverlayInfo;
use crate::text::{signed_decimal, push_signed_decimal};

verus! {

/// The colours the overlay writes in.
#[derive(Clone, Copy, Debug, PartialEq, Eq, Structural)]
pub enum TextColor {
    White,
    Green,
    Red,
}

/// Where a line of overlay text starts horizontally.
#[derive(Clone, Copy, Debug, PartialEq, Eq, Structural)]
pub enum TextX {
    /// At the left edge.
    Origin,
    /// Right after the status label, as wide as its glyphs.
    AfterStatusLabel,
    /// Right after the game version label, as wide as its glyphs.
    AfterGameVersionLabel,
    /// Where the purchase notice goes: 480 plus half the width of its first line.
    PurchaseNotice,
}

/// The label before the connection status.
pub const STATUS_LABEL: &'static str = "Status: ";

/// The label before the game's version.
pub const GAME_VERSION_LABEL: &'static str = "Game Version:";

/// The first line of the notice that upgrades cannot be bought.
pub const NO_PURCHASE: &'static str = "Cannot purchase upgrades";

/// The second line of that notice.
pub const NO_PURCHASE_L2: &'static str = "due to world settings";

/// The text whose glyph width places a line anchored at `x` (empty for the left edge).
pub fn anchor_text(x: TextX) -> (r: &'static str)
    ensures
        r@ == match x {
            TextX::Origin => ""@,
            TextX::AfterStatusLabel => STATUS_LABEL@,
            TextX::AfterGameVersionLabel => GAME_VERSION_LABEL@,
            TextX::PurchaseNotice => NO_PURCHASE@,
        },
{
    match x {
        TextX::Origin => "",
        TextX::AfterStatusLabel => STATUS_LABEL,
        TextX::AfterGameVersionLabel => GAME_VERSION_LABEL,
        TextX::PurchaseNotice => NO_PURCHASE,
    }
}

/// One line of overlay text: what, where and in which colour. `y` is in pixels
/// from the top.
pub struct OverlayText {
    pub text: String,
    pub x: TextX,
    pub y: usize,
    pub color: TextColor,
}

/// A line as the contracts speak of it.
pub type LineView = (Seq<char>, TextX, usize, TextColor);

impl View for OverlayText {
    type V = LineView;

    open spec fn view(&self) -> LineView {
        (self.text@, self.x, self.y, self.color)
    }
}

/// The lines as the contracts speak of them.
pub open spec fn lines_view(lines: Seq<OverlayText>) -> Seq<LineView> {
    lines.map_values(|l: OverlayText| l@)
}

/// One component the game loader reports on: the game itself or a mod.
pub struct ComponentStatus {
    pub description: String,
    pub valid_for_use: bool,
}

/// What the game loader found: the game's version and the other mods loaded.
pub struct LoaderStatus {
    pub game: ComponentStatus,
    pub mods: Vec<ComponentStatus>,
}

/// Green for a component fit for use, red otherwise.
pub open spec fn validity_color(valid: bool) -> TextColor {
    if valid { TextColor::Green } else { TextColor::Red }
}

/// The colour plain overlay text is written in.
pub fn default_color() -> (r: TextColor)
    ensures
        r == TextColor::White,
{
    TextColor::White
}

/// Whether the status is shown away from the main menu as well; it never is.
pub fn should_display_anyway() -> (r: bool)
    ensures
        !r,
{
    false
}

/// The word for the connection's state.
pub fn status_label(connected: bool) -> (r: &'static str)
    ensures
        r@ == if connected { "Connected"@ } else { "Disconnected"@ },
{
    if connected { "Connected" } else { "Disconnected" }
}

/// The status line of the Archipelago window: `Status: Connected` or
/// `Status: Disconnected`.
pub fn status_text(connected: bool) -> (r: String)
    ensures
        r@ == STATUS_LABEL@ + if connected { "Connected"@ } else { "Disconnected"@ },
{
    let mut r = String::new();
    r.append(STATUS_LABEL);
    r.append(status_label(connected));
    r
}

/// The lines of the tracker window: the blue and the purple orb counts.
pub fn tracker_lines(data: &ArchipelagoData) -> (r: Vec<String>)
    ensures
        r@.len() == 2,
        r@[0]@ == "Blue Orbs: "@ + signed_decimal(data.blue_orbs as int),
        r@[1]@ == "Purple Orbs: "@ + signed_decimal(data.purple_orbs as int),
{
    let mut blue = String::new();
    blue.append("Blue Orbs: ");
    push_signed_decimal(&mut blue, data.blue_orbs as i64);
    let mut purple = String::new();
    purple.append("Purple Orbs: ");
    push_signed_decimal(&mut purple, data.purple_orbs as i64);
    let mut r: Vec<String> = Vec::new();
    r.push(blue);
    r.push(purple);
    r
}

/// The line for mod number `i`, listed under the additional mods.
pub open spec fn mod_line(status: LoaderStatus, i: int) -> LineView {
    (
        status.mods@[i].description@,
        TextX::Origin,
        (350 + 50 * i) as usize,
        validity_color(status.mods@[i].valid_for_use),
    )
}

/// The lines about the game's version and the mods loaded beside it.
pub open spec fn loader_lines(status: LoaderStatus) -> Seq<LineView> {
    seq![
        (GAME_VERSION_LABEL@, TextX::Origin, 250usize, TextColor::White),
        (" "@ + status.game.description@, TextX::AfterGameVersionLabel, 250usize, validity_color(status.game.valid_for_use)),
        ("Additional Mods:"@, TextX::Origin, 300usize, TextColor::White),
    ] + Seq::new(status.mods@.len(), |i: int| mod_line(status, i))
}

/// The version lines: the mod's own version; while connected and the version
/// information is at hand, the client's and the room's versions when known;
/// and what the game loader reported, when it did.
pub open spec fn version_lines(
    mod_version: Seq<char>,
    connected: bool,
    overlay: Option<OverlayInfo>,
    loader: Option<LoaderStatus>,
) -> Seq<LineView> {
    let versions = if connected && overlay is Some {
        let info = overlay.unwrap();
        (match info.client_version {
            Some(cv) => seq![("AP Client Version: "@ + cv@, TextX::Origin, 150usize, TextColor::White)],
            None => Seq::empty(),
        }) + (match info.generated_version {
            Some(gv) => seq![("Room Version: "@ + gv@, TextX::Origin, 200usize, TextColor::White)],
            None => Seq::empty(),
        })
    } else {
        Seq::empty()
    };
    seq![("Mod Version: "@ + mod_version, TextX::Origin, 100usize, TextColor::White)] + versions + match loader {
        Some(status) => loader_lines(status),
        None => Seq::empty(),
    }
}

/// The mod lines fit the screen's integer range.
pub open spec fn loader_fits(loader: Option<LoaderStatus>) -> bool {
    match loader {
        Some(status) => 350 + 50 * status.mods@.len() <= usize::MAX,
        None => true,
    }
}

fn copy_string(s: &String) -> (r: String)
    ensures
        r@ == s@,
{
    s.clone()
}

fn push_line(lines: &mut Vec<OverlayText>, text: String, x: TextX, y: usize, color: TextColor)
    ensures
        lines_view(final(lines)@) == lines_view(old(lines)@).push((text@, x, y, color)),
{
    let ghost before = lines@;
    lines.push(OverlayText { text, x, y, color });
    assert(lines_view(lines@) =~= lines_view(before).push((text@, x, y, color)));
}

/// The version lines, in drawing order (see [`version_lines`]).
pub fn version_info_lines(
    mod_version: &str,
    connected: bool,
    overlay: Option<&OverlayInfo>,
    loader: Option<&LoaderStatus>,
) -> (r: Vec<OverlayText>)
    requires
        loader_fits(match loader { Some(l) => Some(*l), None => None }),
    ensures
        lines_view(r@) == version_lines(
            mod_version@,
            connected,
            match overlay { Some(o) => Some(*o), None => None },
            match loader { Some(l) => Some(*l), None => None },
        ),
{
    let mut r: Vec<OverlayText> = Vec::new();
    let mut t = String::new();
    t.append("Mod Version: ");
    t.append(mod_version);
    push_line(&mut r, t, TextX::Origin, 100, TextColor::White);
    if connected {
        match overlay {
            Some(info) => {
                match &info.client_version {
                    Some(cv) => {
                        let mut t = String::new();
                        t.append("AP Client Version: ");
                        t.append(cv.as_str());
                        push_line(&mut r, t, TextX::Origin, 150, TextColor::White);
                    },
                    None => {},
                }
                match &info.generated_version {
                    Some(gv) => {
                        let mut t = String::new();
                        t.append("Room Version: ");
                        t.append(gv.as_str());
                        push_line(&mut r, t, TextX::Origin, 200, TextColor::White);
                    },
                    None => {},
                }
            },
            None => {},
        }
    }
    let ghost after_versions = lines_view(r@);
    match loader {
        Some(status) => {
            let mut t = String::new();
            t.append(GAME_VERSION_LABEL);
            push_line(&mut r, t, TextX::Origin, 250, TextColor::White);
            let mut t = String::new();
            t.append(" ");
            t.append(status.game.description.as_str());
            let color = if status.game.valid_for_use { TextColor::Green } else { TextColor::Red };
            push_line(&mut r, t, TextX::AfterGameVersionLabel, 250, color);
            let mut t = String::new();
            t.append("Additional Mods:");
            push_line(&mut r, t, TextX::Origin, 300, TextColor::White);
            let ghost head = lines_view(r@);
            let mut i: usize = 0;
            while i < status.mods.len()
                invariant
                    i <= status.mods@.len(),
                    350 + 50 * status.mods@.len() <= usize::MAX,
                    lines_view(r@) == head + Seq::new(i as nat, |k: int| mod_line(*status, k)),
                decreases status.mods@.len() - i,
            {
                let m = &status.mods[i];
                let color = if m.valid_for_use { TextColor::Green } else { TextColor::Red };
                let y: usize = 350 + i * 50;
                push_line(&mut r, copy_string(&m.description), TextX::Origin, y, color);
                assert(Seq::new((i + 1) as nat, |k: int| mod_line(*status, k)) =~= Seq::new(
                    i as nat,
                    |k: int| mod_line(*status, k),
                ).push(mod_line(*status, i as int)));
                i = i + 1;
            }
            assert(head =~= after_versions + seq![
                (GAME_VERSION_LABEL@, TextX::Origin, 250usize, TextColor::White),
                (" "@ + status.game.description@, TextX::AfterGameVersionLabel, 250usize, validity_color(status.game.valid_for_use)),
                ("Additional Mods:"@, TextX::Origin, 300usize, TextColor::White),
            ]);
        },
        None => {},
    }
    assert(lines_view(r@) =~= version_lines(
        mod_version@,
        connected,
        match overlay { Some(o) => Some(*o), None => None },
        match loader { Some(l) => Some(*l), None => None },
    ));
    r
}


/// Whether the connection status and versions are drawn: on the main menu
/// (or when shown anyway), once the font is loaded.
pub open spec fn shows_status(on_main_menu: bool, font_loaded: bool) -> bool {
    on_main_menu && font_loaded
}

/// All lines the overlay draws besides the notifications, and whether the
/// purchase notice is still pending afterwards. With the status shown: the
/// status label, the status in green or red, then the version lines. A pending
/// purchase notice is drawn, and so cleared, once the font is loaded.
pub open spec fn overlay_lines_spec(
    on_main_menu: bool,
    connected: bool,
    font_loaded: bool,
    cant_purchase: bool,
    mod_version: Seq<char>,
    overlay: Option<OverlayInfo>,
    loader: Option<LoaderStatus>,
) -> (Seq<LineView>, bool) {
    let status = if shows_status(on_main_menu, font_loaded) {
        seq![
            (STATUS_LABEL@, TextX::Origin, 0usize, TextColor::White),
            (if connected { "Connected"@ } else { "Disconnected"@ }, TextX::AfterStatusLabel, 0usize,
                if connected { TextColor::Green } else { TextColor::Red }),
        ] + version_lines(mod_version, connected, overlay, loader)
    } else {
        Seq::empty()
    };
    if cant_purchase && font_loaded {
        (status + seq![
            (NO_PURCHASE@, TextX::PurchaseNotice, 70usize, TextColor::White),
            (NO_PURCHASE_L2@, TextX::PurchaseNotice, 106usize, TextColor::White),
        ], false)
    } else {
        (status, cant_purchase)
    }
}

/// The lines the overlay draws this frame besides the notifications, and
/// whether the purchase notice is still pending (see [`overlay_lines_spec`]).
pub fn overlay_lines(
    on_main_menu: bool,
    connected: bool,
    font_loaded: bool,
    cant_purchase: bool,
    mod_version: &str,
    overlay: Option<&OverlayInfo>,
    loader: Option<&LoaderStatus>,
) -> (r: (Vec<OverlayText>, bool))
    requires
        loader_fits(match loader { Some(l) => Some(*l), None => None }),
    ensures
        (lines_view(r.0@), r.1) == overlay_lines_spec(
            on_main_menu,
            connected,
            font_loaded,
            cant_purchase,
            mod_version@,
            match overlay { Some(o) => Some(*o), None => None },
            match loader { Some(l) => Some(*l), None => None },
        ),
{
    let mut lines: Vec<OverlayText> = Vec::new();
    if (on_main_menu || should_display_anyway()) && font_loaded {
        let mut t = String::new();
        t.append(STATUS_LABEL);
        push_line(&mut lines, t, TextX::Origin, 0, default_color());
        let mut t = String::new();
        t.append(status_label(connected));
        let color = if connected { TextColor::Green } else { TextColor::Red };
        push_line(&mut lines, t, TextX::AfterStatusLabel, 0, color);
        let ghost head = lines_view(lines@);
        let mut versions = version_info_lines(mod_version, connected, overlay, loader);
        let ghost tail = lines_view(versions@);
        lines.append(&mut versions);
        assert(lines_view(lines@) =~= head + tail);
    }
    let ghost status = lines_view(lines@);
    let mut pending = cant_purchase;
    if cant_purchase && font_loaded {
        let mut t = String::new();
        t.append(NO_PURCHASE);
        push_line(&mut lines, t, TextX::PurchaseNotice, 70, TextColor::White);
        let mut t = String::new();
        t.append(NO_PURCHASE_L2);
        push_line(&mut lines, t, TextX::PurchaseNotice, 106, TextColor::White);
        pending = false;
    }
    assert(lines_view(lines@) =~= overlay_lines_spec(
        on_main_menu,
        connected,
        font_loaded,
        cant_purchase,
        mod_version@,
        match overlay { Some(o) => Some(*o), None => None },
        match loader { Some(l) => Some(*l), None => None },
    ).0);
    (lines, pending)
}

/// The colour that marks a component fit for use: green, and red when it is not.
pub open spec fn fitness_color(valid: bool) -> TextColor {
    if valid { TextColor::Green } else { TextColor::Red }
}

/// The first version lines: `Mod Version: {version}` at y 100, then, only
/// while connected with the version information at hand, the client version
/// at y 150 and the room version at y 200, each when known, all in white.
pub proof fn lemma_version_lines_head(
    mod_version: Seq<char>,
    connected: bool,
    overlay: Option<OverlayInfo>,
)
    ensures
        ({
            let v = version_lines(mod_version, connected, overlay, None);
            &&& v.len() >= 1
            &&& v[0] == ("Mod Version: "@ + mod_version, TextX::Origin, 100usize, TextColor::White)
            &&& !(connected && overlay is Some) ==> v.len() == 1
            &&& (connected && overlay is Some) ==> {
                let info = overlay.unwrap();
                &&& v.len() == 1 + (if info.client_version is Some { 1int } else { 0 }) + (
                if info.generated_version is Some {
                    1int
                } else {
                    0
                })
                &&& info.client_version matches Some(cv) ==> v[1] == (
                    "AP Client Version: "@ + cv@,
                    TextX::Origin,
                    150usize,
                    TextColor::White,
                )
                &&& info.generated_version matches Some(gv) ==> v[v.len() - 1] == (
                    "Room Version: "@ + gv@,
                    TextX::Origin,
                    200usize,
                    TextColor::White,
                )
            }
        }),
{
}

/// What the game loader reported adds, after the same head lines: the
/// `Game Version:` label at y 250, the game's description after it in green
/// exactly when the game is fit for use (red otherwise), the
/// `Additional Mods:` label at y 300, and then one line per loaded mod, in
/// order: mod `i`'s description at y 350 + 50 i, green exactly when that mod
/// is fit for use.
pub proof fn lemma_version_lines_loader(
    mod_version: Seq<char>,
    connected: bool,
    overlay: Option<OverlayInfo>,
    status: LoaderStatus,
)
    ensures
        ({
            let head = version_lines(mod_version, connected, overlay, None);
            let v = version_lines(mod_version, connected, overlay, Some(status));
            let n = head.len() as int;
            &&& v.len() == n + 3 + status.mods@.len()
            &&& v.subrange(0, n) == head
            &&& v[n] == ("Game Version:"@, TextX::Origin, 250usize, TextColor::White)
            &&& v[n + 1] == (
                " "@ + status.game.description@,
                TextX::AfterGameVersionLabel,
                250usize,
                fitness_color(status.game.valid_for_use),
            )
            &&& v[n + 2] == ("Additional Mods:"@, TextX::Origin, 300usize, TextColor::White)
            &&& forall|i: int|
                0 <= i < status.mods@.len() ==> {
                    &&& (#[trigger] v[n + 3 + i]).0 == status.mods@[i].description@
                    &&& v[n + 3 + i].1 == TextX::Origin
                    &&& v[n + 3 + i].3 == fitness_color(status.mods@[i].valid_for_use)
                    &&& 350 + 50 * status.mods@.len() <= usize::MAX ==> v[n + 3 + i].2 as int
                        == 350 + 50 * i
                }
        }),
{
    reveal_strlit("Game Version:");
    let head = version_lines(mod_version, connected, overlay, None);
    let v = version_lines(mod_version, connected, overlay, Some(status));
    let n = head.len() as int;
    assert(head + loader_lines(status) =~= v);
    assert(v.subrange(0, n) =~= head);
    assert forall|i: int| 0 <= i < status.mods@.len() implies {
        &&& (#[trigger] v[n + 3 + i]).0 == status.mods@[i].description@
        &&& v[n + 3 + i].1 == TextX::Origin
        &&& v[n + 3 + i].3 == fitness_color(status.mods@[i].valid_for_use)
        &&& 350 + 50 * status.mods@.len() <= usize::MAX ==> v[n + 3 + i].2 as int == 350 + 50 * i
    } by {
        assert(v[n + 3 + i] == loader_lines(status)[3 + i]);
        assert(loader_lines(status)[3 + i] == mod_line(status, i));
    }
}

/// The purchase notice is drawn whenever it is pending and the font is loaded,
/// on the main menu or not: its two lines end the list and it is no longer
/// pending. Otherwise the pending flag is left as it was.
pub proof fn lemma_purchase_notice(
    on_main_menu: bool,
    connected: bool,
    font_loaded: bool,
    cant_purchase: bool,
    mod_version: Seq<char>,
    overlay: Option<OverlayInfo>,
    loader: Option<LoaderStatus>,
)
    ensures
        ({
            let (l, pending) = overlay_lines_spec(
                on_main_menu,
                connected,
                font_loaded,
                cant_purchase,
                mod_version,
                overlay,
                loader,
            );
            &&& (cant_purchase && font_loaded) ==> {
                &&& !pending
                &&& l.len() >= 2
                &&& l[l.len() - 2] == (
                    "Cannot purchase upgrades"@,
                    TextX::PurchaseNotice,
                    70usize,
                    TextColor::White,
                )
                &&& l[l.len() - 1] == (
                    "due to world settings"@,
                    TextX::PurchaseNotice,
                    106usize,
                    TextColor::White,
                )
            }
            &&& !(cant_purchase && font_loaded) ==> pending == cant_purchase
        }),
{
    reveal_strlit("Cannot purchase upgrades");
    reveal_strlit("due to world settings");
}

/// The connection status is drawn only on the main menu with the font loaded:
/// then the list starts with `Status: ` and `Connected` in green or
/// `Disconnected` in red, followed by the version lines; away from the main
/// menu or without the font, only the purchase notice can be drawn.
pub proof fn lemma_status_lines(
    on_main_menu: bool,
    connected: bool,
    font_loaded: bool,
    cant_purchase: bool,
    mod_version: Seq<char>,
    overlay: Option<OverlayInfo>,
    loader: Option<LoaderStatus>,
)
    ensures
        ({
            let (l, pending) = overlay_lines_spec(
                on_main_menu,
                connected,
                font_loaded,
                cant_purchase,
                mod_version,
                overlay,
                loader,
            );
            let versions = version_lines(mod_version, connected, overlay, loader);
            let notice: int = if cant_purchase && font_loaded { 2 } else { 0 };
            &&& (on_main_menu && font_loaded) ==> {
                &&& l.len() == 2 + versions.len() + notice
                &&& l[0] == ("Status: "@, TextX::Origin, 0usize, TextColor::White)
                &&& l[1] == (
                    if connected { "Connected"@ } else { "Disconnected"@ },
                    TextX::AfterStatusLabel,
                    0usize,
                    if connected { TextColor::Green } else { TextColor::Red },
                )
                &&& l.subrange(2, 2 + versions.len() as int) == versions
            }
            &&& !(on_main_menu && font_loaded) ==> l.len() == notice
        }),
{
    reveal_strlit("Status: ");
    let (l, pending) = overlay_lines_spec(
        on_main_menu,
        connected,
        font_loaded,
        cant_purchase,
        mod_version,
        overlay,
        loader,
    );
    let versions = version_lines(mod_version, connected, overlay, loader);
    if on_main_menu && font_loaded {
        assert(l.subrange(2, 2 + versions.len() as int) =~= versions);
    }
}

} // verus!
