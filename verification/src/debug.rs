//! The debug overlay: its on/off switch and the status line it shows.

use vstd::prelude::*;
use crate::pickup::PlayerStats;
use crate::player::Player;

verus! {

/// Whether the debug shapes (pickup range, weapon and enemy arrows) are drawn.
#[derive(Clone, Copy, Debug, PartialEq, Eq, Structural)]
pub struct DebugConfig {
    pub visuals_enabled: bool,
}

impl DebugConfig {
    /// The overlay as the game starts: shapes hidden.
    pub fn new() -> (c: DebugConfig)
        ensures
            !c.visuals_enabled,
    {
        DebugConfig { visuals_enabled: false }
    }
}

/// The overlay switch after a frame: flipped when the toggle key was just
/// pressed, unchanged otherwise.
pub open spec fn toggled(enabled: bool, toggle_just_pressed: bool) -> bool {
    if toggle_just_pressed {
        !enabled
    } else {
        enabled
    }
}

/// Turns the debug shapes on or off each time the toggle key is pressed;
/// leaves them as they are otherwise.
pub fn debug_inputs(config: &mut DebugConfig, toggle_just_pressed: bool)
    ensures
        final(config).visuals_enabled == toggled(old(config).visuals_enabled, toggle_just_pressed),
        !toggle_just_pressed ==> final(config).visuals_enabled == old(config).visuals_enabled,
        toggle_just_pressed ==> final(config).visuals_enabled == !old(config).visuals_enabled,
{
    if toggle_just_pressed {
        config.visuals_enabled = !config.visuals_enabled;
    }
}

/// Pressing the toggle key twice leaves the overlay as it was.
pub proof fn lemma_toggle_twice(enabled: bool)
    ensures
        toggled(toggled(enabled, true), true) == enabled,
{
}

/// A frame without the toggle key leaves the overlay as it is; a press
/// always turns it to the other setting.
pub proof fn lemma_toggle_only_on_press(enabled: bool)
    ensures
        toggled(enabled, false) == enabled,
        toggled(enabled, true) != enabled,
{
}

/// The character of a decimal digit.
pub open spec fn digit_char(d: int) -> char {
    if d == 0 {
        '0'
    } else if d == 1 {
        '1'
    } else if d == 2 {
        '2'
    } else if d == 3 {
        '3'
    } else if d == 4 {
        '4'
    } else if d == 5 {
        '5'
    } else if d == 6 {
        '6'
    } else if d == 7 {
        '7'
    } else if d == 8 {
        '8'
    } else {
        '9'
    }
}

/// The value of a numeral written in decimal digits `'0'..='9'`, read from
/// its most significant digit.
pub open spec fn numeral_value(s: Seq<char>) -> int
    decreases s.len(),
{
    if s.len() == 0 {
        0
    } else {
        10 * numeral_value(s.drop_last()) + (s.last() as int - '0' as int)
    }
}

/// Every character of `s` is one of the ASCII digits `'0'..='9'`.
pub open spec fn all_digits(s: Seq<char>) -> bool {
    forall|i: int| 0 <= i < s.len() ==> '0' as int <= #[trigger] s[i] as int <= '9' as int
}

/// The digit character for `d` is the ASCII character `'0' + d`.
pub proof fn lemma_digit_char_is_ascii(d: int)
    requires
        0 <= d < 10,
    ensures
        digit_char(d) as int == '0' as int + d,
{
}

/// The decimal numeral of `n`, without leading zeros.
pub open spec fn decimal(n: nat) -> Seq<char>
    decreases n,
{
    if n < 10 {
        seq![digit_char(n as int)]
    } else {
        decimal(n / 10).push(digit_char((n % 10) as int))
    }
}

/// The numeral of `n` is made of ASCII digits, has no leading zero unless it
/// is the single digit of zero, and reads back as `n`.
pub proof fn lemma_decimal_reads_back(n: nat)
    ensures
        all_digits(decimal(n)),
        decimal(n).len() >= 1,
        decimal(n).len() > 1 ==> decimal(n)[0] != '0',
        numeral_value(decimal(n)) == n,
    decreases n,
{
    if n < 10 {
        lemma_digit_char_is_ascii(n as int);
        let d = decimal(n);
        assert(d == seq![digit_char(n as int)]);
        assert(d.drop_last() =~= Seq::<char>::empty());
        assert(numeral_value(d.drop_last()) == 0);
        assert(numeral_value(d) == 10 * numeral_value(d.drop_last()) + (d.last() as int - '0' as int));
    } else {
        lemma_decimal_reads_back(n / 10);
        lemma_digit_char_is_ascii((n % 10) as int);
        let d = decimal(n);
        assert(d.drop_last() =~= decimal(n / 10));
        assert forall|i: int| 0 <= i < d.len() implies '0' as int <= #[trigger] d[i] as int
            <= '9' as int by {
            if i < d.len() - 1 {
                assert(d[i] == decimal(n / 10)[i]);
            }
        }
        if n / 10 < 10 {
            assert(decimal(n / 10) == seq![digit_char((n / 10) as int)]);
            assert(decimal(n / 10)[0] as int == '0' as int + n / 10) by {
                lemma_digit_char_is_ascii((n / 10) as int);
            }
        } else {
            assert(decimal(n / 10) == decimal(n / 10 / 10).push(digit_char((n / 10 % 10) as int)));
            assert(decimal(n / 10).len() > 1);
        }
        assert(d[0] == decimal(n / 10)[0]);
        assert(d.last() as int - '0' as int == n % 10);
        assert(numeral_value(d) == 10 * numeral_value(decimal(n / 10)) + n % 10);
    }
}

/// The status line: `Gems: <gems> Level: <level>`.
pub open spec fn status_text(gems: nat, level: nat) -> Seq<char> {
    "Gems: "@ + decimal(gems) + " Level: "@ + decimal(level)
}

/// The status line spelled out character by character: the label `Gems: `,
/// the gem numeral, the label ` Level: `, the level numeral.
pub proof fn lemma_status_text_spelled(gems: nat, level: nat)
    ensures
        status_text(gems, level) == seq!['G', 'e', 'm', 's', ':', ' '] + decimal(gems) + seq![
            ' ',
            'L',
            'e',
            'v',
            'e',
            'l',
            ':',
            ' ',
        ] + decimal(level),
{
    reveal_strlit("Gems: ");
    reveal_strlit(" Level: ");
    assert("Gems: "@ =~= seq!['G', 'e', 'm', 's', ':', ' ']);
    assert(" Level: "@ =~= seq![' ', 'L', 'e', 'v', 'e', 'l', ':', ' ']);
}

fn digit_str(d: u32) -> (s: &'static str)
    requires
        d < 10,
    ensures
        s@ == seq![digit_char(d as int)],
{
    proof {
        reveal_strlit("0");
        reveal_strlit("1");
        reveal_strlit("2");
        reveal_strlit("3");
        reveal_strlit("4");
        reveal_strlit("5");
        reveal_strlit("6");
        reveal_strlit("7");
        reveal_strlit("8");
        reveal_strlit("9");
    }
    if d == 0 {
        "0"
    } else if d == 1 {
        "1"
    } else if d == 2 {
        "2"
    } else if d == 3 {
        "3"
    } else if d == 4 {
        "4"
    } else if d == 5 {
        "5"
    } else if d == 6 {
        "6"
    } else if d == 7 {
        "7"
    } else if d == 8 {
        "8"
    } else {
        "9"
    }
}

fn append_decimal(s: &mut String, n: u32)
    ensures
        final(s)@ == old(s)@ + decimal(n as nat),
    decreases n,
{
    if n >= 10 {
        append_decimal(s, n / 10);
    }
    s.append(digit_str(n % 10));
}

/// The status line shown by the overlay: `Gems: <gems> Level: <level>`.
pub fn debug_text(gems: u32, level: u32) -> (text: String)
    ensures
        text@ == status_text(gems as nat, level as nat),
{
    let mut text: String = String::new();
    text.append("Gems: ");
    append_decimal(&mut text, gems);
    text.append(" Level: ");
    append_decimal(&mut text, level);
    assert(text@ =~= status_text(gems as nat, level as nat));
    text
}

/// The status line for the player's current gems and weapon level.
pub fn draw_debug_data(stats: &PlayerStats, player: &Player) -> (text: String)
    ensures
        text@ == status_text(stats.gems as nat, player.weapon_level as nat),
{
    debug_text(stats.gems, player.weapon_level)
}

/// The status line shown when the game starts: no gems, level 1.
pub fn setup() -> (text: String)
    ensures
        text@ == status_text(0, 1),
{
    debug_text(0, 1)
}

} // verus!
