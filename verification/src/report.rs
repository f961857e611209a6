//! Plain-text descriptions of a planet's state, as the planet writes them into its logs.
use vstd::prelude::*;
use common_game::components::planet::PlanetState;
use crate::model::PlanetView;
use crate::outside::{cell_charges, cell_is_charged, has_rocket, planet_id, planet_view};

verus! {

/// The decimal digit `d` as a character.
pub open spec fn digit_char(d: nat) -> char {
    if d == 0 {
        '0'
    } else if d == 1 {
        '1'
    } else if d == 2 {
        '2'
    } else if d == 3 {
        '3'
    } else if d == 4 {
        '4'
    } else if d == 5 {
        '5'
    } else if d == 6 {
        '6'
    } else if d == 7 {
        '7'
    } else if d == 8 {
        '8'
    } else {
        '9'
    }
}

/// The decimal text of `n`, without leading zeros.
pub open spec fn decimal(n: nat) -> Seq<char>
    decreases n,
{
    if n < 10 {
        seq![digit_char(n)]
    } else {
        decimal(n / 10) + seq![digit_char(n % 10)]
    }
}

/// The number that a text of decimal digits stands for, each character worth its code
/// minus the code of `'0'`.
pub open spec fn digits_value(text: Seq<char>) -> int
    decreases text.len(),
{
    if text.len() == 0 {
        0
    } else {
        digits_value(text.drop_last()) * 10 + (text.last() as int - '0' as int)
    }
}

/// Every character of the text is one of `'0'` to `'9'`.
pub open spec fn all_digits(text: Seq<char>) -> bool {
    forall|i: int| 0 <= i < text.len() ==> '0' as int <= #[trigger] text[i] as int <= '9' as int
}

/// The digit character for `d` is the one whose code is that of `'0'` plus `d`.
pub proof fn law_digit_char_code(d: nat)
    requires
        d < 10,
    ensures
        digit_char(d) as int == '0' as int + d,
{
}

/// The decimal text of `n` is a nonempty string of digits that reads back as `n`.
pub proof fn law_decimal_reads_back(n: nat)
    ensures
        decimal(n).len() > 0,
        all_digits(decimal(n)),
        digits_value(decimal(n)) == n,
    decreases n,
{
    law_digit_char_code(n % 10);
    if n >= 10 {
        law_decimal_reads_back(n / 10);
        let t = decimal(n);
        assert(t.drop_last() =~= decimal(n / 10));
        assert(t.last() == digit_char(n % 10));
        assert(digits_value(t) == digits_value(decimal(n / 10)) * 10 + (n % 10));
        assert((n / 10) * 10 + n % 10 == n) by (nonlinear_arith);
    } else {
        let t = decimal(n);
        assert(t.drop_last() =~= Seq::<char>::empty());
        assert(digits_value(t) == digits_value(t.drop_last()) * 10 + (t.last() as int - '0' as int));
    }
}

/// How a boolean is printed.
pub open spec fn bool_text(b: bool) -> Seq<char> {
    if b {
        "true"@
    } else {
        "false"@
    }
}

/// How the presence of a rocket is printed.
pub open spec fn rocket_text(stored: bool) -> Seq<char> {
    if stored {
        "Some(rocket)"@
    } else {
        "None"@
    }
}

/// The one-line description of a planet state.
pub open spec fn state_line(v: PlanetView) -> Seq<char> {
    "id: "@ + decimal(v.id as nat) + ", EnergyCell: is charged? "@ + bool_text(v.cells[0])
        + ", rocket: "@ + rocket_text(v.rocket)
}

/// The description of a planet state as key and value pairs.
pub open spec fn state_fields(v: PlanetView) -> Seq<(Seq<char>, Seq<char>)> {
    seq![
        ("id"@, decimal(v.id as nat)),
        ("energy_cell.is_charged()"@, bool_text(v.cells[0])),
        ("rocket"@, rocket_text(v.rocket)),
    ]
}

/// The text of a key and value pair.
pub open spec fn pair_text(p: (String, String)) -> (Seq<char>, Seq<char>) {
    (p.0@, p.1@)
}

/// The text of a sequence of key and value pairs.
pub open spec fn pairs_text(pairs: Seq<(String, String)>) -> Seq<(Seq<char>, Seq<char>)> {
    pairs.map_values(|p: (String, String)| pair_text(p))
}

fn digit_text(d: u32) -> (text: &'static str)
    requires
        d < 10,
    ensures
        text@ == seq![digit_char(d as nat)],
{
    proof {
        reveal_strlit("0");
        reveal_strlit("1");
        reveal_strlit("2");
        reveal_strlit("3");
        reveal_strlit("4");
        reveal_strlit("5");
        reveal_strlit("6");
        reveal_strlit("7");
        reveal_strlit("8");
        reveal_strlit("9");
    }
    if d == 0 {
        "0"
    } else if d == 1 {
        "1"
    } else if d == 2 {
        "2"
    } else if d == 3 {
        "3"
    } else if d == 4 {
        "4"
    } else if d == 5 {
        "5"
    } else if d == 6 {
        "6"
    } else if d == 7 {
        "7"
    } else if d == 8 {
        "8"
    } else {
        "9"
    }
}

/// Appends the decimal text of `n` to `out`.
pub fn push_decimal(out: &mut String, n: u32)
    ensures
        final(out)@ == old(out)@ + decimal(n as nat),
    decreases n,
{
    if n >= 10 {
        push_decimal(out, n / 10);
    }
    out.append(digit_text(n % 10));
}

/// The decimal text of `n`.
pub fn decimal_string(n: u32) -> (text: String)
    ensures
        text@ == decimal(n as nat),
        text@.len() > 0,
        all_digits(text@),
        digits_value(text@) == n,
{
    proof {
        law_decimal_reads_back(n as nat);
    }
    let mut text = String::new();
    push_decimal(&mut text, n);
    text
}

fn bool_str(b: bool) -> (text: &'static str)
    ensures
        text@ == bool_text(b),
{
    if b {
        "true"
    } else {
        "false"
    }
}

fn rocket_str(stored: bool) -> (text: &'static str)
    ensures
        text@ == rocket_text(stored),
{
    if stored {
        "Some(rocket)"
    } else {
        "None"
    }
}

/// The one-line description of a planet state: its identifier, whether its first cell is
/// charged, and whether it stores a rocket.
pub fn drop_planet_state_as_string(planet_state: &PlanetState) -> (text: String)
    requires
        cell_charges(*planet_state).len() > 0,
    ensures
        text@ == state_line(planet_view(*planet_state)),
{
    let mut text = String::from_str("id: ");
    push_decimal(&mut text, planet_id(planet_state));
    text.append(", EnergyCell: is charged? ");
    text.append(bool_str(cell_is_charged(planet_state, 0)));
    text.append(", rocket: ");
    text.append(rocket_str(has_rocket(planet_state)));
    text
}

/// The description of a planet state as key and value pairs: its identifier, whether its
/// first cell is charged, and whether it stores a rocket.
pub fn drop_planet_state_fields_as_vector(planet_state: &PlanetState) -> (fields: Vec<
    (String, String),
>)
    requires
        cell_charges(*planet_state).len() > 0,
    ensures
        pairs_text(fields@) == state_fields(planet_view(*planet_state)),
{
    let mut fields: Vec<(String, String)> = Vec::new();
    fields.push((String::from_str("id"), decimal_string(planet_id(planet_state))));
    fields.push(
        (
            String::from_str("energy_cell.is_charged()"),
            String::from_str(bool_str(cell_is_charged(planet_state, 0))),
        ),
    );
    fields.push(
        (String::from_str("rocket"), String::from_str(rocket_str(has_rocket(planet_state)))),
    );
    assert(pairs_text(fields@) =~= state_fields(planet_view(*planet_state)));
    fields
}

/// The given pairs followed by the description of the planet state.
pub fn append_info_to_state(state: &PlanetState, input_vec: Vec<(String, String)>) -> (pairs: Vec<
    (String, String),
>)
    requires
        cell_charges(*state).len() > 0,
    ensures
        pairs_text(pairs@) == pairs_text(input_vec@) + state_fields(planet_view(*state)),
{
    let mut pairs: Vec<(String, String)> = Vec::new();
    let mut i: usize = 0;
    while i < input_vec.len()
        invariant
            i <= input_vec.len(),
            pairs_text(pairs@) =~= pairs_text(input_vec@.take(i as int)),
        decreases input_vec.len() - i,
    {
        let ghost prev = pairs@;
        let (key, value) = &input_vec[i];
        pairs.push((key.clone(), value.clone()));
        assert(input_vec@.take(i + 1) =~= input_vec@.take(i as int).push(input_vec@[i as int]));
        assert(pairs_text(pairs@) =~= pairs_text(prev).push(pair_text(input_vec@[i as int])));
        assert(pairs_text(input_vec@.take(i + 1)) =~= pairs_text(input_vec@.take(i as int)).push(
            pair_text(input_vec@[i as int]),
        ));
        i = i + 1;
    }
    assert(input_vec@.take(input_vec.len() as int) =~= input_vec@);
    let fields = drop_planet_state_fields_as_vector(state);
    let ghost before = pairs@;
    let mut j: usize = 0;
    while j < fields.len()
        invariant
            j <= fields.len(),
            pairs_text(pairs@) =~= pairs_text(before) + pairs_text(fields@.take(j as int)),
        decreases fields.len() - j,
    {
        let ghost prev = pairs@;
        let (key, value) = &fields[j];
        pairs.push((key.clone(), value.clone()));
        assert(fields@.take(j + 1) =~= fields@.take(j as int).push(fields@[j as int]));
        assert(pairs_text(pairs@) =~= pairs_text(prev).push(pair_text(fields@[j as int])));
        assert(pairs_text(fields@.take(j + 1)) =~= pairs_text(fields@.take(j as int)).push(
            pair_text(fields@[j as int]),
        ));
        j = j + 1;
    }
    assert(fields@.take(fields.len() as int) =~= fields@);
    pairs
}

} // verus!
