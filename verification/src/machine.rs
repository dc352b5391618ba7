//! The arcade machines around the processor: the shift register that their
//! games use for sprites, their input ports, the keys that drive those
//! ports, and the sounds that their output ports trigger.
use vstd::prelude::*;

use crate::bit_operations::{self, bit_of, word, high_byte_of, reversed_byte};
use crate::branch_instructions::call_effect;
use crate::{Ports, State, StateView};

verus! {

/// The eight bits that the shift register's result port shows: bits
/// `15 - shift_amount` down to `8 - shift_amount` of the shift data.
pub open spec fn shifted_value(shift_data: u16, shift_amount: u8) -> u8 {
    ((shift_data >> ((8 - shift_amount) as u16)) & 0xffu16) as u8
}

pub fn get_shifted_value(shift_data: u16, shift_amount: u8) -> (value: u8)
    requires
        shift_amount <= 8,
    ensures
        value == shifted_value(shift_data, shift_amount),
{
    let mask: u16 = 0b_1111_1111_0000_0000u16 >> (shift_amount as u16);
    let shift: u16 = (8 - shift_amount) as u16;
    let value: u8 = ((shift_data & mask) >> shift) as u8;
    assert(value == ((shift_data >> shift) & 0xffu16) as u8) by (bit_vector)
        requires
            shift_amount <= 8,
            shift == 8 - shift_amount,
            mask == 0b_1111_1111_0000_0000u16 >> (shift_amount as u16),
            value == ((shift_data & mask) >> shift) as u8,
    ;
    value
}

/// The shift register takes a new byte at the top; its old top byte moves
/// to the bottom.
pub fn shift_new_value_into_data(shift_data: u16, value: u8) -> (new_shift_data: u16)
    ensures
        new_shift_data == word(high_byte_of(shift_data), value),
{
    let (_, high_shift_data) = bit_operations::split_to_low_high_bytes(shift_data);
    bit_operations::concat_low_high_bytes(high_shift_data, value)
}

/// The port value with each listed bit set to its flag, in order; a later
/// entry for a bit wins.
pub open spec fn port_value_with_flags(port_value: u8, bit_flags: Seq<(u8, bool)>) -> u8
    decreases bit_flags.len(),
{
    if bit_flags.len() == 0 {
        port_value
    } else {
        let previous = port_value_with_flags(port_value, bit_flags.drop_last());
        let (bit_index, flag) = bit_flags.last();
        (previous & !(1u8 << bit_index)) | (if flag {
            1u8 << bit_index
        } else {
            0u8
        })
    }
}

pub open spec fn are_bit_indices(bit_flags: Seq<(u8, bool)>) -> bool {
    forall|i: int| 0 <= i < bit_flags.len() ==> #[trigger] bit_flags[i].0 < 8
}

/// Sets the listed bits of a port value to their flags.
pub fn set_flags_in_port_value(port_value: u8, bit_index_to_flag_map: &[(u8, bool)]) -> (new_value: u8)
    requires
        are_bit_indices(bit_index_to_flag_map@),
    ensures
        new_value == port_value_with_flags(port_value, bit_index_to_flag_map@),
{
    let mut port = port_value;
    let mut index: usize = 0;
    while index < bit_index_to_flag_map.len()
        invariant
            index <= bit_index_to_flag_map@.len(),
            are_bit_indices(bit_index_to_flag_map@),
            port == port_value_with_flags(port_value, bit_index_to_flag_map@.take(index as int)),
        decreases bit_index_to_flag_map@.len() - index,
    {
        let (bit_index, flag) = bit_index_to_flag_map[index];
        assert(bit_index_to_flag_map@[index as int].0 < 8);
        bit_operations::set_bit_in_value(&mut port, bit_index, flag);
        assert(bit_index_to_flag_map@.take(index + 1).drop_last() =~= bit_index_to_flag_map@.take(
            index as int,
        ));
        index = index + 1;
    }
    assert(bit_index_to_flag_map@.take(bit_index_to_flag_map@.len() as int)
        =~= bit_index_to_flag_map@);
    port
}

/// The new static value of an input port that reported `static_value`: that
/// value with the listed bits set to their flags, or `None` where the port
/// has no static value.
pub open spec fn flagged_static_value(static_value: Option<u8>, bit_flags: Seq<(u8, bool)>) -> Option<u8> {
    match static_value {
        Some(value) => Some(port_value_with_flags(value, bit_flags)),
        None => None,
    }
}

/// What updating the static value of an input port found and left: the
/// static value that the port reported, and the value written back.
#[derive(Copy, Clone, PartialEq, Eq, Structural, Debug)]
pub struct InputPortUpdate {
    pub static_value: Option<u8>,
    pub new_value: Option<u8>,
}

/// The new static value of an input port, given the static value that the
/// port reported.
pub fn static_port_value_with_flags(
    static_value: Option<u8>,
    bit_index_to_flag_map: &[(u8, bool)],
) -> (new_value: Option<u8>)
    requires
        are_bit_indices(bit_index_to_flag_map@),
    ensures
        new_value == flagged_static_value(static_value, bit_index_to_flag_map@),
{
    match static_value {
        Some(port) => Some(set_flags_in_port_value(port, bit_index_to_flag_map)),
        None => None,
    }
}

/// Sets the listed bits of an input port's static value to their flags:
/// reads the static value of port `port_number` and, where it has one,
/// writes the new value back to that port. Returns the value read and the
/// value written, `None` for both where the port has no static value.
pub fn set_in_port_from_flags(
    ports: &mut Box<dyn Ports>,
    port_number: u8,
    bit_index_to_flag_map: &[(u8, bool)],
) -> (update: InputPortUpdate)
    requires
        are_bit_indices(bit_index_to_flag_map@),
    ensures
        update.static_value == old(ports).static_value(port_number),
        update.new_value == flagged_static_value(update.static_value, bit_index_to_flag_map@),
        final(ports).static_value(port_number) == update.new_value,
        forall|other: u8|
            other != port_number ==> #[trigger] final(ports).static_value(other) == old(
                ports,
            ).static_value(other),
{
    let static_value = ports.in_port_static_value(port_number);
    let new_value = static_port_value_with_flags(static_value, bit_index_to_flag_map);
    if let Some(new_port) = new_value {
        ports.set_in_port_static_value(port_number, new_port);
    }
    InputPortUpdate { static_value, new_value }
}

/// The keys that the machines read.
#[derive(Copy, Clone, PartialEq, Eq, Structural, Debug)]
pub enum Key {
    RShift,
    Backquote,
    Return,
    Backspace,
    Space,
    Left,
    Right,
    Up,
    Down,
    W,
    S,
    A,
    D,
    Tab,
    Other,
}

/// The sounds of Space Invaders.
#[derive(Copy, Clone, PartialEq, Eq, Structural, Hash, Debug)]
pub enum SoundName {
    Shoot,
    PlayerKilled,
    InvaderKilled,
    UfoFly,
    UfoKilled,
    InvaderMovement1,
    InvaderMovement2,
    InvaderMovement3,
    InvaderMovement4,
}

/// The sound that a bit of a Space Invaders output port starts when it
/// goes from clear to set.
pub open spec fn sound_of_bit(port_number: u8, bit_index: u8) -> Option<SoundName> {
    if port_number == 3 {
        if bit_index == 0 {
            Some(SoundName::UfoFly)
        } else if bit_index == 1 {
            Some(SoundName::Shoot)
        } else if bit_index == 2 {
            Some(SoundName::PlayerKilled)
        } else if bit_index == 3 {
            Some(SoundName::InvaderKilled)
        } else {
            None
        }
    } else if port_number == 5 {
        if bit_index == 0 {
            Some(SoundName::InvaderMovement1)
        } else if bit_index == 1 {
            Some(SoundName::InvaderMovement2)
        } else if bit_index == 2 {
            Some(SoundName::InvaderMovement3)
        } else if bit_index == 3 {
            Some(SoundName::InvaderMovement4)
        } else if bit_index == 4 {
            Some(SoundName::UfoKilled)
        } else {
            None
        }
    } else {
        None
    }
}

pub fn sound_for_bit(port_number: u8, bit_index: u8) -> (sound: Option<SoundName>)
    ensures
        sound == sound_of_bit(port_number, bit_index),
{
    if port_number == 3 {
        match bit_index {
            0 => Some(SoundName::UfoFly),
            1 => Some(SoundName::Shoot),
            2 => Some(SoundName::PlayerKilled),
            3 => Some(SoundName::InvaderKilled),
            _ => None,
        }
    } else if port_number == 5 {
        match bit_index {
            0 => Some(SoundName::InvaderMovement1),
            1 => Some(SoundName::InvaderMovement2),
            2 => Some(SoundName::InvaderMovement3),
            3 => Some(SoundName::InvaderMovement4),
            4 => Some(SoundName::UfoKilled),
            _ => None,
        }
    } else {
        None
    }
}

/// The sounds that writing `new_value` over `port_value` starts: those of
/// the bits that go from clear to set, in bit order.
pub open spec fn sounds_started(port_number: u8, port_value: u8, new_value: u8) -> Seq<SoundName> {
    Seq::new(8, |i: int| i as u8).filter(
        |bit_index: u8|
            bit_of(new_value, bit_index) && !bit_of(port_value, bit_index) && sound_of_bit(
                port_number,
                bit_index,
            ) is Some,
    ).map_values(|bit_index: u8| sound_of_bit(port_number, bit_index).unwrap())
}

/// Filtering keeps a sequence free of duplicates.
proof fn lemma_filter_keeps_no_duplicates<A>(values: Seq<A>, pred: spec_fn(A) -> bool)
    requires
        values.no_duplicates(),
    ensures
        values.filter(pred).no_duplicates(),
    decreases values.len(),
{
    reveal(Seq::filter);
    if values.len() > 0 {
        let rest = values.drop_last();
        assert(rest.no_duplicates());
        lemma_filter_keeps_no_duplicates(rest, pred);
        if pred(values.last()) {
            if rest.filter(pred).contains(values.last()) {
                rest.lemma_filter_contains_rev(pred, values.last());
                let k = choose|k: int| 0 <= k < rest.len() && rest[k] == values.last();
                assert(values[k] == values[values.len() - 1]);
            }
        }
    }
}

/// No two bits of a port start the same sound.
proof fn lemma_sound_of_bit_is_injective(port_number: u8, bit_1: u8, bit_2: u8)
    requires
        bit_1 < 8,
        bit_2 < 8,
        sound_of_bit(port_number, bit_1) is Some,
        sound_of_bit(port_number, bit_1) == sound_of_bit(port_number, bit_2),
    ensures
        bit_1 == bit_2,
{
}

/// Whether a sound is that of a bit of the port that goes from clear to set.
pub open spec fn is_rising_edge_sound(port_number: u8, port_value: u8, new_value: u8, sound: SoundName) -> bool {
    exists|bit: u8|
        bit < 8 && bit_of(new_value, bit) && !bit_of(port_value, bit) && #[trigger] sound_of_bit(
            port_number,
            bit,
        ) == Some(sound)
}

/// Writing a sound port starts the sound of a bit exactly when that bit goes
/// from clear to set, each such sound once, and no other sound.
pub proof fn lemma_sounds_start_on_rising_edges(port_number: u8, port_value: u8, new_value: u8)
    ensures
        sounds_started(port_number, port_value, new_value).no_duplicates(),
        forall|bit: u8|
            bit < 8 && #[trigger] sound_of_bit(port_number, bit) is Some ==> (sounds_started(
                port_number,
                port_value,
                new_value,
            ).contains(sound_of_bit(port_number, bit).unwrap()) <==> bit_of(new_value, bit)
                && !bit_of(port_value, bit)),
        forall|i: int|
            0 <= i < sounds_started(port_number, port_value, new_value).len() ==> is_rising_edge_sound(
                port_number,
                port_value,
                new_value,
                #[trigger] sounds_started(port_number, port_value, new_value)[i],
            ),
{
    broadcast use vstd::seq_lib::group_filter_ensures;
    let bits = Seq::new(8, |i: int| i as u8);
    let started = |bit_index: u8|
        bit_of(new_value, bit_index) && !bit_of(port_value, bit_index) && sound_of_bit(
            port_number,
            bit_index,
        ) is Some;
    let to_sound = |bit_index: u8| sound_of_bit(port_number, bit_index).unwrap();
    let filtered = bits.filter(started);
    let sounds = filtered.map_values(to_sound);
    assert(sounds == sounds_started(port_number, port_value, new_value));
    assert forall|k: int| 0 <= k < filtered.len() implies started(#[trigger] filtered[k])
        && filtered[k] < 8 by {
        bits.lemma_filter_pred(started, k);
        assert(filtered.contains(filtered[k]));
        bits.lemma_filter_contains_rev(started, filtered[k]);
    }
    assert(bits.no_duplicates());
    lemma_filter_keeps_no_duplicates(bits, started);
    assert forall|i: int, j: int| 0 <= i < sounds.len() && 0 <= j < sounds.len() && i != j implies sounds[i]
        != sounds[j] by {
        assert(started(filtered[i]) && filtered[i] < 8);
        assert(started(filtered[j]) && filtered[j] < 8);
        if sounds[i] == sounds[j] {
            lemma_sound_of_bit_is_injective(port_number, filtered[i], filtered[j]);
        }
    }
    assert forall|bit: u8|
        bit < 8 && #[trigger] sound_of_bit(port_number, bit) is Some implies (sounds.contains(
        sound_of_bit(port_number, bit).unwrap(),
    ) <==> bit_of(new_value, bit) && !bit_of(port_value, bit)) by {
        if bit_of(new_value, bit) && !bit_of(port_value, bit) {
            assert(bits[bit as int] == bit);
            bits.lemma_filter_contains(started, bit as int);
            let k = choose|k: int| 0 <= k < filtered.len() && filtered[k] == bit;
            assert(sounds[k] == to_sound(bit));
        }
        if sounds.contains(sound_of_bit(port_number, bit).unwrap()) {
            let k = choose|k: int|
                0 <= k < sounds.len() && sounds[k] == sound_of_bit(port_number, bit).unwrap();
            assert(started(filtered[k]) && filtered[k] < 8);
            lemma_sound_of_bit_is_injective(port_number, filtered[k], bit);
        }
    }
    assert forall|i: int| 0 <= i < sounds.len() implies is_rising_edge_sound(
        port_number,
        port_value,
        new_value,
        #[trigger] sounds[i],
    ) by {
        assert(started(filtered[i]) && filtered[i] < 8);
        assert(sound_of_bit(port_number, filtered[i]) == Some(sounds[i]));
    }
}

/// The ports of the Space Invaders machine, apart from its sound output.
#[derive(Copy, Clone, PartialEq, Eq, Structural, Debug)]
pub struct SpaceInvadersPorts {
    pub shift_data: u16,
    pub shift_amount: u8,
    pub in_port_0: u8,
    pub in_port_1: u8,
    pub in_port_2: u8,
    pub out_port_3: u8,
    pub out_port_5: u8,
    pub watchdog: u8,
}

impl SpaceInvadersPorts {
    pub open spec fn is_well_formed(self) -> bool {
        self.shift_amount < 8
    }

    /// The value that reading an input port gives: ports 0 to 2 hold static
    /// values, port 3 shows the shift register.
    pub open spec fn in_value(self, port_number: u8) -> u8 {
        if port_number == 0 {
            self.in_port_0
        } else if port_number == 1 {
            self.in_port_1
        } else if port_number == 2 {
            self.in_port_2
        } else {
            shifted_value(self.shift_data, self.shift_amount)
        }
    }

    /// The ports after a write: port 2 sets the shift amount, port 4 shifts a
    /// byte in, ports 3 and 5 hold sound bits, port 6 feeds the watchdog.
    pub open spec fn written(self, port_number: u8, value: u8) -> SpaceInvadersPorts {
        if port_number == 2 {
            SpaceInvadersPorts { shift_amount: value % 8, ..self }
        } else if port_number == 3 {
            SpaceInvadersPorts { out_port_3: value, ..self }
        } else if port_number == 4 {
            SpaceInvadersPorts {
                shift_data: word(high_byte_of(self.shift_data), value),
                ..self
            }
        } else if port_number == 5 {
            SpaceInvadersPorts { out_port_5: value, ..self }
        } else {
            SpaceInvadersPorts { watchdog: value, ..self }
        }
    }

    /// The power-on values: input port 0 reads 0b0000_1110 and port 1 reads
    /// 0b0000_1000; everything else is zero.
    pub fn new() -> (ports: SpaceInvadersPorts)
        ensures
            ports == (SpaceInvadersPorts {
                shift_data: 0,
                shift_amount: 0,
                in_port_0: 0b0000_1110,
                in_port_1: 0b0000_1000,
                in_port_2: 0,
                out_port_3: 0,
                out_port_5: 0,
                watchdog: 0,
            }),
    {
        SpaceInvadersPorts {
            shift_data: 0b0000_0000_0000_0000,
            shift_amount: 0b0000_0000,
            in_port_0: 0b0000_1110,
            in_port_1: 0b0000_1000,
            in_port_2: 0b0000_0000,
            out_port_3: 0b0000_0000,
            out_port_5: 0b0000_0000,
            watchdog: 0b0000_0000,
        }
    }

    /// Reads input port 0, 1, 2 or 3; reading port 3 needs a shift amount
    /// of at most 8.
    pub fn read_in_port(&self, port_number: u8) -> (value: u8)
        requires
            port_number <= 3,
            port_number == 3 ==> self.shift_amount <= 8,
        ensures
            value == self.in_value(port_number),
    {
        match port_number {
            0 => self.in_port_0,
            1 => self.in_port_1,
            2 => self.in_port_2,
            _ => get_shifted_value(self.shift_data, self.shift_amount),
        }
    }

    /// Writes output port 2, 3, 4, 5 or 6; returns the sounds to start.
    pub fn write_out_port(&mut self, port_number: u8, value: u8) -> (sounds: Vec<SoundName>)
        requires
            2 <= port_number <= 6,
        ensures
            *final(self) == old(self).written(port_number, value),
            old(self).is_well_formed() ==> final(self).is_well_formed(),
            sounds@ == if port_number == 3 {
                sounds_started(3, old(self).out_port_3, value)
            } else if port_number == 5 {
                sounds_started(5, old(self).out_port_5, value)
            } else {
                Seq::empty()
            },
    {
        let mut sounds = Vec::new();
        match port_number {
            3 => {
                sounds = sounds_to_play(3, self.out_port_3, value);
                self.out_port_3 = value;
            },
            5 => {
                sounds = sounds_to_play(5, self.out_port_5, value);
                self.out_port_5 = value;
            },
            2 => {
                let amount = value & 0b0000_0111;
                assert(amount == value % 8) by (bit_vector)
                    requires
                        amount == value & 0b0000_0111u8,
                ;
                self.shift_amount = amount;
            },
            4 => self.shift_data = shift_new_value_into_data(self.shift_data, value),
            _ => self.watchdog = value,
        };
        sounds
    }

    pub fn in_port_static_value(&self, port_number: u8) -> (value: Option<u8>)
        ensures
            value == if port_number <= 2 {
                Some(self.in_value(port_number))
            } else {
                None
            },
    {
        match port_number {
            0 => Some(self.in_port_0),
            1 => Some(self.in_port_1),
            2 => Some(self.in_port_2),
            _ => None,
        }
    }

    pub fn set_in_port_static_value(&mut self, port_number: u8, value: u8)
        ensures
            *final(self) == if port_number == 0 {
                SpaceInvadersPorts { in_port_0: value, ..*old(self) }
            } else if port_number == 1 {
                SpaceInvadersPorts { in_port_1: value, ..*old(self) }
            } else if port_number == 2 {
                SpaceInvadersPorts { in_port_2: value, ..*old(self) }
            } else {
                *old(self)
            },
    {
        match port_number {
            0 => self.in_port_0 = value,
            1 => self.in_port_1 = value,
            2 => self.in_port_2 = value,
            _ => {},
        }
    }
}

/// The sounds that writing `new_value` over `port_value` starts, in bit order.
pub fn sounds_to_play(port_number: u8, port_value: u8, new_value: u8) -> (sounds: Vec<SoundName>)
    ensures
        sounds@ == sounds_started(port_number, port_value, new_value),
{
    let ghost bits = Seq::new(8, |i: int| i as u8);
    let ghost started = |bit_index: u8|
        bit_of(new_value, bit_index) && !bit_of(port_value, bit_index) && sound_of_bit(
            port_number,
            bit_index,
        ) is Some;
    let ghost to_sound = |bit_index: u8| sound_of_bit(port_number, bit_index).unwrap();
    let mut sounds: Vec<SoundName> = Vec::new();
    let mut bit_index: u8 = 0;
    while bit_index < 8
        invariant
            bit_index <= 8,
            bits == Seq::new(8, |i: int| i as u8),
            started == (|bit_index: u8|
                bit_of(new_value, bit_index) && !bit_of(port_value, bit_index) && sound_of_bit(
                    port_number,
                    bit_index,
                ) is Some),
            to_sound == (|bit_index: u8| sound_of_bit(port_number, bit_index).unwrap()),
            sounds@ == bits.take(bit_index as int).filter(started).map_values(to_sound),
        decreases 8 - bit_index,
    {
        let is_new = bit_operations::is_bit_set(new_value, bit_index)
            && !bit_operations::is_bit_set(port_value, bit_index);
        let sound = sound_for_bit(port_number, bit_index);
        if is_new {
            if let Some(sound_name) = sound {
                sounds.push(sound_name);
            }
        }
        proof {
            reveal_with_fuel(Seq::filter, 1);
            assert(bits.take(bit_index + 1).drop_last() =~= bits.take(bit_index as int));
            assert(bits.take(bit_index + 1).last() == bit_index);
            assert(started(bit_index) == (is_new && sound is Some));
            let prefix = bits.take(bit_index as int).filter(started);
            if is_new && sound is Some {
                assert(bits.take(bit_index + 1).filter(started) == prefix.push(bit_index));
                assert(prefix.push(bit_index).map_values(to_sound) =~= prefix.map_values(
                    to_sound,
                ).push(to_sound(bit_index)));
            } else {
                assert(bits.take(bit_index + 1).filter(started) == prefix);
            }
        }
        bit_index = bit_index + 1;
    }
    assert(bits.take(8) =~= bits);
    sounds
}

/// The ports of the Boot Hill machine.
#[derive(Copy, Clone, PartialEq, Eq, Structural, Debug)]
pub struct BootHillPorts {
    pub shift_data: u16,
    pub shift_amount: u8,
    pub shift_reverse: bool,
    pub in_port_0: u8,
    pub in_port_1: u8,
    pub in_port_2: u8,
    pub watchdog: u8,
}

impl BootHillPorts {
    pub open spec fn is_well_formed(self) -> bool {
        self.shift_amount < 8
    }

    /// The value that reading an input port gives: ports 0 to 2 hold static
    /// values, port 3 shows the shift register, bit-reversed when asked.
    pub open spec fn in_value(self, port_number: u8) -> u8 {
        if port_number == 0 {
            self.in_port_0
        } else if port_number == 1 {
            self.in_port_1
        } else if port_number == 2 {
            self.in_port_2
        } else if self.shift_reverse {
            reversed_byte(shifted_value(self.shift_data, self.shift_amount))
        } else {
            shifted_value(self.shift_data, self.shift_amount)
        }
    }

    /// The ports after a write: port 1 sets the shift amount (bits 0-2) and
    /// the reversal (bit 3), port 2 shifts a byte in, port 4 feeds the
    /// watchdog; ports 3, 5 and 6 drive sound and change nothing here.
    pub open spec fn written(self, port_number: u8, value: u8) -> BootHillPorts {
        if port_number == 1 {
            BootHillPorts {
                shift_amount: value % 8,
                shift_reverse: bit_of(value, 3),
                ..self
            }
        } else if port_number == 2 {
            BootHillPorts { shift_data: word(high_byte_of(self.shift_data), value), ..self }
        } else if port_number == 4 {
            BootHillPorts { watchdog: value, ..self }
        } else {
            self
        }
    }

    /// Everything zero, no reversal.
    pub fn new() -> (ports: BootHillPorts)
        ensures
            ports == (BootHillPorts {
                shift_data: 0,
                shift_amount: 0,
                shift_reverse: false,
                in_port_0: 0,
                in_port_1: 0,
                in_port_2: 0,
                watchdog: 0,
            }),
    {
        BootHillPorts {
            shift_data: 0b0000_0000_0000_0000,
            shift_amount: 0b0000_0000,
            shift_reverse: false,
            in_port_0: 0b0000_0000,
            in_port_1: 0b0000_0000,
            in_port_2: 0b0000_0000,
            watchdog: 0b0000_0000,
        }
    }

    /// Reads input port 0, 1, 2 or 3; reading port 3 needs a shift amount
    /// of at most 8.
    pub fn read_in_port(&self, port_number: u8) -> (value: u8)
        requires
            port_number <= 3,
            port_number == 3 ==> self.shift_amount <= 8,
        ensures
            value == self.in_value(port_number),
    {
        match port_number {
            0 => self.in_port_0,
            1 => self.in_port_1,
            2 => self.in_port_2,
            _ => {
                let shifted_value = get_shifted_value(self.shift_data, self.shift_amount);
                if self.shift_reverse {
                    bit_operations::reverse_byte(shifted_value)
                } else {
                    shifted_value
                }
            },
        }
    }

    /// Writes output port 1, 2, 3, 4, 5 or 6.
    pub fn write_out_port(&mut self, port_number: u8, value: u8)
        requires
            1 <= port_number <= 6,
        ensures
            *final(self) == old(self).written(port_number, value),
            old(self).is_well_formed() ==> final(self).is_well_formed(),
    {
        match port_number {
            3 | 5 | 6 => {},
            1 => {
                let amount = value & 0b0000_0111;
                let reverse = value & 0b0000_1000 == 0b0000_1000;
                assert(amount == value % 8 && reverse == bit_of(value, 3)) by (bit_vector)
                    requires
                        amount == value & 0b0000_0111u8,
                        reverse == (value & 0b0000_1000u8 == 0b0000_1000u8),
                ;
                self.shift_amount = amount;
                self.shift_reverse = reverse;
            },
            2 => self.shift_data = shift_new_value_into_data(self.shift_data, value),
            _ => self.watchdog = value,
        }
    }

    pub fn in_port_static_value(&self, port_number: u8) -> (value: Option<u8>)
        ensures
            value == if port_number <= 2 {
                Some(self.in_value(port_number))
            } else {
                None
            },
    {
        match port_number {
            0 => Some(self.in_port_0),
            1 => Some(self.in_port_1),
            2 => Some(self.in_port_2),
            _ => None,
        }
    }

    pub fn set_in_port_static_value(&mut self, port_number: u8, value: u8)
        ensures
            *final(self) == if port_number == 0 {
                BootHillPorts { in_port_0: value, ..*old(self) }
            } else if port_number == 1 {
                BootHillPorts { in_port_1: value, ..*old(self) }
            } else if port_number == 2 {
                BootHillPorts { in_port_2: value, ..*old(self) }
            } else {
                *old(self)
            },
    {
        match port_number {
            0 => self.in_port_0 = value,
            1 => self.in_port_1 = value,
            2 => self.in_port_2 = value,
            _ => {},
        }
    }
}


/// The player inputs of Space Invaders.
#[derive(Copy, Clone, PartialEq, Eq, Structural, Debug)]
pub struct SpaceInvadersInputs {
    pub credit: bool,
    pub tilt: bool,
    pub p1_start: bool,
    pub p1_shoot: bool,
    pub p1_left: bool,
    pub p1_right: bool,
    pub p2_start: bool,
    pub p2_shoot: bool,
    pub p2_left: bool,
    pub p2_right: bool,
}

/// The dip switches of Space Invaders.
#[derive(Copy, Clone, PartialEq, Eq, Structural, Debug)]
pub struct SpaceInvadersDipSwitches {
    pub num_ships_low: bool,
    pub num_ships_high: bool,
    pub extra_ship_at_lower_score: bool,
    pub coin_info_off: bool,
}

impl SpaceInvadersInputs {
    /// The inputs after a key goes down or up: right shift is the coin,
    /// backquote tilts, return and backspace start one or two players,
    /// space shoots and the arrow keys move, for both players.
    pub open spec fn after_key(self, key: Key, key_down: bool) -> SpaceInvadersInputs {
        match key {
            Key::RShift => SpaceInvadersInputs { credit: key_down, ..self },
            Key::Backquote => SpaceInvadersInputs { tilt: key_down, ..self },
            Key::Return => SpaceInvadersInputs { p1_start: key_down, ..self },
            Key::Backspace => SpaceInvadersInputs { p2_start: key_down, ..self },
            Key::Space => SpaceInvadersInputs { p1_shoot: key_down, p2_shoot: key_down, ..self },
            Key::Left => SpaceInvadersInputs { p1_left: key_down, p2_left: key_down, ..self },
            Key::Right => SpaceInvadersInputs { p1_right: key_down, p2_right: key_down, ..self },
            _ => self,
        }
    }

    /// No input active.
    pub open spec fn inactive() -> SpaceInvadersInputs {
        SpaceInvadersInputs {
            credit: false,
            tilt: false,
            p1_start: false,
            p1_shoot: false,
            p1_left: false,
            p1_right: false,
            p2_start: false,
            p2_shoot: false,
            p2_left: false,
            p2_right: false,
        }
    }

    pub fn new() -> (inputs: SpaceInvadersInputs)
        ensures
            inputs == SpaceInvadersInputs::inactive(),
    {
        SpaceInvadersInputs {
            credit: false,
            tilt: false,
            p1_start: false,
            p1_shoot: false,
            p1_left: false,
            p1_right: false,
            p2_start: false,
            p2_shoot: false,
            p2_left: false,
            p2_right: false,
        }
    }

    pub fn set_input_from_key(&mut self, key: Key, key_down: bool)
        ensures
            *final(self) == old(self).after_key(key, key_down),
    {
        match key {
            Key::RShift => self.credit = key_down,
            Key::Backquote => self.tilt = key_down,
            Key::Return => self.p1_start = key_down,
            Key::Backspace => self.p2_start = key_down,
            Key::Space => {
                self.p1_shoot = key_down;
                self.p2_shoot = key_down;
            },
            Key::Left => {
                self.p1_left = key_down;
                self.p2_left = key_down;
            },
            Key::Right => {
                self.p1_right = key_down;
                self.p2_right = key_down;
            },
            _ => {},
        }
    }

    /// The bits of an input port that the inputs and dip switches drive.
    pub open spec fn port_flags(
        self,
        dip_switches: SpaceInvadersDipSwitches,
        port_number: u8,
    ) -> Seq<(u8, bool)> {
        if port_number == 0 {
            seq![
                (4u8, self.p1_shoot || self.p2_shoot),
                (5u8, self.p1_left || self.p2_left),
                (6u8, self.p1_right || self.p2_right),
            ]
        } else if port_number == 1 {
            seq![
                (0u8, self.credit),
                (1u8, self.p2_start),
                (2u8, self.p1_start),
                (4u8, self.p1_shoot),
                (5u8, self.p1_left),
                (6u8, self.p1_right),
            ]
        } else {
            seq![
                (2u8, self.tilt),
                (4u8, self.p2_shoot),
                (5u8, self.p2_left),
                (6u8, self.p2_right),
                (0u8, dip_switches.num_ships_low),
                (1u8, dip_switches.num_ships_high),
                (3u8, dip_switches.extra_ship_at_lower_score),
                (7u8, dip_switches.coin_info_off),
            ]
        }
    }

    /// The bits of input port 0, 1 or 2 that the inputs and dip switches drive.
    pub fn in_port_flags(&self, dip_switches: &SpaceInvadersDipSwitches, port_number: u8) -> (flags: Vec<(u8, bool)>)
        requires
            port_number <= 2,
        ensures
            flags@ == self.port_flags(*dip_switches, port_number),
            are_bit_indices(flags@),
    {
        let flags = if port_number == 0 {
            vec![
                (4u8, self.p1_shoot || self.p2_shoot),
                (5u8, self.p1_left || self.p2_left),
                (6u8, self.p1_right || self.p2_right),
            ]
        } else if port_number == 1 {
            vec![
                (0u8, self.credit),
                (1u8, self.p2_start),
                (2u8, self.p1_start),
                (4u8, self.p1_shoot),
                (5u8, self.p1_left),
                (6u8, self.p1_right),
            ]
        } else {
            vec![
                (2u8, self.tilt),
                (4u8, self.p2_shoot),
                (5u8, self.p2_left),
                (6u8, self.p2_right),
                (0u8, dip_switches.num_ships_low),
                (1u8, dip_switches.num_ships_high),
                (3u8, dip_switches.extra_ship_at_lower_score),
                (7u8, dip_switches.coin_info_off),
            ]
        };
        assert(flags@ =~= self.port_flags(*dip_switches, port_number));
        flags
    }
}

impl SpaceInvadersDipSwitches {
    /// All switches off.
    pub open spec fn inactive() -> SpaceInvadersDipSwitches {
        SpaceInvadersDipSwitches {
            num_ships_low: false,
            num_ships_high: false,
            extra_ship_at_lower_score: false,
            coin_info_off: false,
        }
    }

    pub fn new() -> (dip_switches: SpaceInvadersDipSwitches)
        ensures
            dip_switches == SpaceInvadersDipSwitches::inactive(),
    {
        SpaceInvadersDipSwitches {
            num_ships_low: false,
            num_ships_high: false,
            extra_ship_at_lower_score: false,
            coin_info_off: false,
        }
    }
}

/// Sets input ports 0, 1 and 2 of the Space Invaders ports from the inputs.
pub fn apply_space_invaders_inputs(
    ports: &mut SpaceInvadersPorts,
    inputs: &SpaceInvadersInputs,
    dip_switches: &SpaceInvadersDipSwitches,
)
    ensures
        *final(ports) == (SpaceInvadersPorts {
            in_port_0: port_value_with_flags(old(ports).in_port_0, inputs.port_flags(*dip_switches, 0)),
            in_port_1: port_value_with_flags(old(ports).in_port_1, inputs.port_flags(*dip_switches, 1)),
            in_port_2: port_value_with_flags(old(ports).in_port_2, inputs.port_flags(*dip_switches, 2)),
            ..*old(ports)
        }),
{
    let flags_0 = inputs.in_port_flags(dip_switches, 0);
    ports.in_port_0 = set_flags_in_port_value(ports.in_port_0, flags_0.as_slice());
    let flags_1 = inputs.in_port_flags(dip_switches, 1);
    ports.in_port_1 = set_flags_in_port_value(ports.in_port_1, flags_1.as_slice());
    let flags_2 = inputs.in_port_flags(dip_switches, 2);
    ports.in_port_2 = set_flags_in_port_value(ports.in_port_2, flags_2.as_slice());
}

/// The Space Invaders machine: the processor, whose ports are the
/// machine's, and the inputs.
pub struct SpaceInvadersMachine {
    pub state: State,
    pub inputs: SpaceInvadersInputs,
    pub dip_switches: SpaceInvadersDipSwitches,
}

impl SpaceInvadersMachine {
    /// A reset processor wired to the given ports, with no input active.
    pub fn with_ports(ports: Box<dyn Ports>) -> (machine: SpaceInvadersMachine)
        ensures
            machine.state@ == StateView::initial(),
            machine.state.ports == ports,
            machine.inputs == SpaceInvadersInputs::inactive(),
            machine.dip_switches == SpaceInvadersDipSwitches::inactive(),
    {
        let mut state = State::default();
        let mut wired_ports = ports;
        std::mem::swap(&mut state.ports, &mut wired_ports);
        SpaceInvadersMachine {
            state,
            inputs: SpaceInvadersInputs::new(),
            dip_switches: SpaceInvadersDipSwitches::new(),
        }
    }

    pub fn set_input_from_key(&mut self, key: Key, key_down: bool)
        ensures
            final(self).inputs == old(self).inputs.after_key(key, key_down),
            final(self).dip_switches == old(self).dip_switches,
            final(self).state@ == old(self).state@,
    {
        self.inputs.set_input_from_key(key, key_down);
    }

    /// Sets the bits of input ports 0, 1 and 2 that the inputs and dip
    /// switches drive. Returns, for each of the three ports in turn, the
    /// static value it reported and the value written back to it.
    pub fn set_ports_based_on_inputs(&mut self) -> (updates: (InputPortUpdate, InputPortUpdate, InputPortUpdate))
        ensures
            final(self).state@ == old(self).state@,
            final(self).inputs == old(self).inputs,
            final(self).dip_switches == old(self).dip_switches,
            updates.0.new_value == flagged_static_value(
                updates.0.static_value,
                old(self).inputs.port_flags(old(self).dip_switches, 0),
            ),
            updates.1.new_value == flagged_static_value(
                updates.1.static_value,
                old(self).inputs.port_flags(old(self).dip_switches, 1),
            ),
            updates.2.new_value == flagged_static_value(
                updates.2.static_value,
                old(self).inputs.port_flags(old(self).dip_switches, 2),
            ),
            updates.0.static_value == old(self).state.ports.static_value(0),
            updates.1.static_value == old(self).state.ports.static_value(1),
            updates.2.static_value == old(self).state.ports.static_value(2),
            final(self).state.ports.static_value(0) == updates.0.new_value,
            final(self).state.ports.static_value(1) == updates.1.new_value,
            final(self).state.ports.static_value(2) == updates.2.new_value,
            forall|other: u8|
                other > 2 ==> #[trigger] final(self).state.ports.static_value(other) == old(
                    self,
                ).state.ports.static_value(other),
    {
        let flags_0 = self.inputs.in_port_flags(&self.dip_switches, 0);
        let update_0 = set_in_port_from_flags(&mut self.state.ports, 0, flags_0.as_slice());
        let flags_1 = self.inputs.in_port_flags(&self.dip_switches, 1);
        let update_1 = set_in_port_from_flags(&mut self.state.ports, 1, flags_1.as_slice());
        let flags_2 = self.inputs.in_port_flags(&self.dip_switches, 2);
        let update_2 = set_in_port_from_flags(&mut self.state.ports, 2, flags_2.as_slice());
        (update_0, update_1, update_2)
    }
}

/// The player inputs of Boot Hill.
#[derive(Copy, Clone, PartialEq, Eq, Structural, Debug)]
pub struct BootHillInputs {
    pub credit: bool,
    pub p1_start: bool,
    pub p1_up: bool,
    pub p1_down: bool,
    pub p1_left: bool,
    pub p1_right: bool,
    pub p1_shoot: bool,
    pub p2_start: bool,
    pub p2_up: bool,
    pub p2_down: bool,
    pub p2_left: bool,
    pub p2_right: bool,
    pub p2_shoot: bool,
}

impl BootHillInputs {
    /// The inputs after a key goes down or up: right shift is the coin,
    /// return and backspace start one or two players, the arrow keys and
    /// space move and shoot for player one, W, S, A, D and tab for player two.
    pub open spec fn after_key(self, key: Key, key_down: bool) -> BootHillInputs {
        match key {
            Key::RShift => BootHillInputs { credit: key_down, ..self },
            Key::Return => BootHillInputs { p1_start: key_down, ..self },
            Key::Backspace => BootHillInputs { p2_start: key_down, ..self },
            Key::Up => BootHillInputs { p1_up: key_down, ..self },
            Key::Down => BootHillInputs { p1_down: key_down, ..self },
            Key::Left => BootHillInputs { p1_left: key_down, ..self },
            Key::Right => BootHillInputs { p1_right: key_down, ..self },
            Key::Space => BootHillInputs { p1_shoot: key_down, ..self },
            Key::W => BootHillInputs { p2_up: key_down, ..self },
            Key::S => BootHillInputs { p2_down: key_down, ..self },
            Key::A => BootHillInputs { p2_left: key_down, ..self },
            Key::D => BootHillInputs { p2_right: key_down, ..self },
            Key::Tab => BootHillInputs { p2_shoot: key_down, ..self },
            _ => self,
        }
    }

    /// No input active.
    pub open spec fn inactive() -> BootHillInputs {
        BootHillInputs {
            credit: false,
            p1_start: false,
            p1_up: false,
            p1_down: false,
            p1_left: false,
            p1_right: false,
            p1_shoot: false,
            p2_start: false,
            p2_up: false,
            p2_down: false,
            p2_left: false,
            p2_right: false,
            p2_shoot: false,
        }
    }

    pub fn new() -> (inputs: BootHillInputs)
        ensures
            inputs == BootHillInputs::inactive(),
    {
        BootHillInputs {
            credit: false,
            p1_start: false,
            p1_up: false,
            p1_down: false,
            p1_left: false,
            p1_right: false,
            p1_shoot: false,
            p2_start: false,
            p2_up: false,
            p2_down: false,
            p2_left: false,
            p2_right: false,
            p2_shoot: false,
        }
    }

    pub fn set_input_from_key(&mut self, key: Key, key_down: bool)
        ensures
            *final(self) == old(self).after_key(key, key_down),
    {
        let inputs = *self;
        *self = match key {
            Key::RShift => BootHillInputs { credit: key_down, ..inputs },
            Key::Return => BootHillInputs { p1_start: key_down, ..inputs },
            Key::Backspace => BootHillInputs { p2_start: key_down, ..inputs },
            Key::Up => BootHillInputs { p1_up: key_down, ..inputs },
            Key::Down => BootHillInputs { p1_down: key_down, ..inputs },
            Key::Left => BootHillInputs { p1_left: key_down, ..inputs },
            Key::Right => BootHillInputs { p1_right: key_down, ..inputs },
            Key::Space => BootHillInputs { p1_shoot: key_down, ..inputs },
            Key::W => BootHillInputs { p2_up: key_down, ..inputs },
            Key::S => BootHillInputs { p2_down: key_down, ..inputs },
            Key::A => BootHillInputs { p2_left: key_down, ..inputs },
            Key::D => BootHillInputs { p2_right: key_down, ..inputs },
            Key::Tab => BootHillInputs { p2_shoot: key_down, ..inputs },
            _ => inputs,
        };
    }

    /// The bits of an input port that the inputs drive.
    pub open spec fn port_flags(self, port_number: u8) -> Seq<(u8, bool)> {
        if port_number == 0 {
            seq![
                (0u8, self.p2_up),
                (1u8, self.p2_down),
                (2u8, self.p2_left),
                (3u8, self.p2_right),
                (7u8, self.p2_shoot),
            ]
        } else if port_number == 1 {
            seq![
                (0u8, self.p1_up),
                (1u8, self.p1_down),
                (2u8, self.p1_left),
                (3u8, self.p1_right),
                (7u8, self.p1_shoot),
            ]
        } else {
            seq![(5u8, self.p1_start), (6u8, self.credit), (7u8, self.p2_start)]
        }
    }

    /// The bits of input port 0, 1 or 2 that the inputs drive.
    pub fn in_port_flags(&self, port_number: u8) -> (flags: Vec<(u8, bool)>)
        requires
            port_number <= 2,
        ensures
            flags@ == self.port_flags(port_number),
            are_bit_indices(flags@),
    {
        let flags = if port_number == 0 {
            vec![
                (0u8, self.p2_up),
                (1u8, self.p2_down),
                (2u8, self.p2_left),
                (3u8, self.p2_right),
                (7u8, self.p2_shoot),
            ]
        } else if port_number == 1 {
            vec![
                (0u8, self.p1_up),
                (1u8, self.p1_down),
                (2u8, self.p1_left),
                (3u8, self.p1_right),
                (7u8, self.p1_shoot),
            ]
        } else {
            vec![(5u8, self.p1_start), (6u8, self.credit), (7u8, self.p2_start)]
        };
        assert(flags@ =~= self.port_flags(port_number));
        flags
    }
}

/// Sets input ports 0, 1 and 2 of the Boot Hill ports from the inputs.
pub fn apply_boot_hill_inputs(ports: &mut BootHillPorts, inputs: &BootHillInputs)
    ensures
        *final(ports) == (BootHillPorts {
            in_port_0: port_value_with_flags(old(ports).in_port_0, inputs.port_flags(0)),
            in_port_1: port_value_with_flags(old(ports).in_port_1, inputs.port_flags(1)),
            in_port_2: port_value_with_flags(old(ports).in_port_2, inputs.port_flags(2)),
            ..*old(ports)
        }),
{
    let flags_0 = inputs.in_port_flags(0);
    ports.in_port_0 = set_flags_in_port_value(ports.in_port_0, flags_0.as_slice());
    let flags_1 = inputs.in_port_flags(1);
    ports.in_port_1 = set_flags_in_port_value(ports.in_port_1, flags_1.as_slice());
    let flags_2 = inputs.in_port_flags(2);
    ports.in_port_2 = set_flags_in_port_value(ports.in_port_2, flags_2.as_slice());
}

/// The Boot Hill machine: the processor, whose ports are the machine's, and
/// the inputs.
pub struct BootHillMachine {
    pub state: State,
    pub inputs: BootHillInputs,
}

impl BootHillMachine {
    /// A reset processor wired to the given ports, with no input active.
    pub fn with_ports(ports: Box<dyn Ports>) -> (machine: BootHillMachine)
        ensures
            machine.state@ == StateView::initial(),
            machine.state.ports == ports,
            machine.inputs == BootHillInputs::inactive(),
    {
        let mut state = State::default();
        let mut wired_ports = ports;
        std::mem::swap(&mut state.ports, &mut wired_ports);
        BootHillMachine { state, inputs: BootHillInputs::new() }
    }

    pub fn set_input_from_key(&mut self, key: Key, key_down: bool)
        ensures
            final(self).inputs == old(self).inputs.after_key(key, key_down),
            final(self).state@ == old(self).state@,
    {
        self.inputs.set_input_from_key(key, key_down);
    }

    /// Sets the bits of input ports 0, 1 and 2 that the inputs drive.
    /// Returns, for each of the three ports in turn, the static value it
    /// reported and the value written back to it.
    pub fn set_ports_based_on_inputs(&mut self) -> (updates: (InputPortUpdate, InputPortUpdate, InputPortUpdate))
        ensures
            final(self).state@ == old(self).state@,
            final(self).inputs == old(self).inputs,
            updates.0.new_value == flagged_static_value(
                updates.0.static_value,
                old(self).inputs.port_flags(0),
            ),
            updates.1.new_value == flagged_static_value(
                updates.1.static_value,
                old(self).inputs.port_flags(1),
            ),
            updates.2.new_value == flagged_static_value(
                updates.2.static_value,
                old(self).inputs.port_flags(2),
            ),
            updates.0.static_value == old(self).state.ports.static_value(0),
            updates.1.static_value == old(self).state.ports.static_value(1),
            updates.2.static_value == old(self).state.ports.static_value(2),
            final(self).state.ports.static_value(0) == updates.0.new_value,
            final(self).state.ports.static_value(1) == updates.1.new_value,
            final(self).state.ports.static_value(2) == updates.2.new_value,
            forall|other: u8|
                other > 2 ==> #[trigger] final(self).state.ports.static_value(other) == old(
                    self,
                ).state.ports.static_value(other),
    {
        let flags_0 = self.inputs.in_port_flags(0);
        let update_0 = set_in_port_from_flags(&mut self.state.ports, 0, flags_0.as_slice());
        let flags_1 = self.inputs.in_port_flags(1);
        let update_1 = set_in_port_from_flags(&mut self.state.ports, 1, flags_1.as_slice());
        let flags_2 = self.inputs.in_port_flags(2);
        let update_2 = set_in_port_from_flags(&mut self.state.ports, 2, flags_2.as_slice());
        (update_0, update_1, update_2)
    }
}

/// An interrupt with the given reset index, which the processor takes only
/// while interrupts are enabled: it then runs RST with that index.
pub fn raise_interrupt(state: &mut State, reset_index: u8)
    requires
        reset_index < 8,
    ensures
        final(state)@ == if old(state)@.are_interrupts_enabled {
            call_effect(old(state)@, (reset_index * 8) as u8, 0)
        } else {
            old(state)@
        },
        final(state).ports == old(state).ports,
{
    if state.are_interrupts_enabled {
        crate::branch_instructions::rst_instruction(state, reset_index);
    }
}

/// The interrupts of the video hardware: RST 1 when the beam reaches line
/// 96, the middle of the screen, and RST 2 at the last line.
pub fn generate_video_interrupts_if_needed(state: &mut State, screen_line: u32, max_screen_line: u32)
    ensures
        final(state)@ == video_interrupt_effect(old(state)@, screen_line, max_screen_line),
        final(state).ports == old(state).ports,
{
    if screen_line == 96 {
        raise_interrupt(state, 1);
    } else if screen_line == max_screen_line {
        raise_interrupt(state, 2);
    }
}

/// The state after the video interrupts of a screen line: RST 1 at line 96
/// and RST 2 at the last line, each taken only while interrupts are enabled.
pub open spec fn video_interrupt_effect(state: StateView, screen_line: u32, max_screen_line: u32) -> StateView {
    if screen_line == 96 && state.are_interrupts_enabled {
        call_effect(state, 8, 0)
    } else if screen_line != 96 && screen_line == max_screen_line && state.are_interrupts_enabled {
        call_effect(state, 16, 0)
    } else {
        state
    }
}

/// The beam moves to the next screen line and raises that line's video
/// interrupts. Returns the line to go on from and whether a frame is
/// complete: after the last line the beam starts again at line 0.
pub fn advance_screen_line(state: &mut State, current_screen_line: u32, screen_height: u32) -> (next: (u32, bool))
    requires
        current_screen_line < u32::MAX,
    ensures
        final(state)@ == video_interrupt_effect(old(state)@, (current_screen_line + 1) as u32, screen_height),
        final(state).ports == old(state).ports,
        next.1 == (current_screen_line + 1 >= screen_height),
        next.0 == if current_screen_line + 1 >= screen_height {
            0
        } else {
            current_screen_line + 1
        },
{
    let screen_line = current_screen_line + 1;
    generate_video_interrupts_if_needed(state, screen_line, screen_height);
    if screen_line >= screen_height {
        (0, true)
    } else {
        (screen_line, false)
    }
}

/// With shift amount 0 the result port shows the byte shifted in last.
pub proof fn lemma_shift_register_reads_back(shift_data: u16, value: u8)
    ensures
        shifted_value(word(high_byte_of(shift_data), value), 0) == value,
{
    let previous = high_byte_of(shift_data);
    let data = word(previous, value);
    assert(data == value as int * 256 + previous as int);
    assert(((data >> 8u16) & 0xffu16) as u8 == value) by (bit_vector)
        requires
            data == value as u16 * 256 + previous as u16,
    ;
}

/// Setting one bit to a flag leaves the other bits as they were.
proof fn lemma_bits_after_setting_one(previous: u8, bit_index: u8, flag: bool, next: u8)
    requires
        bit_index < 8,
        next == (previous & !(1u8 << bit_index)) | (if flag {
            1u8 << bit_index
        } else {
            0u8
        }),
    ensures
        forall|bit: u8|
            bit < 8 ==> #[trigger] bit_of(next, bit) == if bit == bit_index {
                flag
            } else {
                bit_of(previous, bit)
            },
{
    let flag_bit: u8 = if flag {
        1u8 << bit_index
    } else {
        0u8
    };
    assert(forall|bit: u8|
        bit < 8 ==> #[trigger] bit_of(next, bit) == if bit == bit_index {
            flag
        } else {
            bit_of(previous, bit)
        }) by (bit_vector)
        requires
            bit_index < 8,
            flag_bit == if flag {
                1u8 << bit_index
            } else {
                0u8
            },
            next == (previous & !(1u8 << bit_index)) | flag_bit,
    ;
}

/// The value of bit `bit` after the listed bits have been set in turn: that
/// of the last entry for the bit, or `default` where there is none.
pub open spec fn last_flag_for(bit_flags: Seq<(u8, bool)>, bit: u8, default: bool) -> bool
    decreases bit_flags.len(),
{
    if bit_flags.len() == 0 {
        default
    } else if bit_flags.last().0 == bit {
        bit_flags.last().1
    } else {
        last_flag_for(bit_flags.drop_last(), bit, default)
    }
}

/// After the listed bits of a port value have been set to their flags,
/// each bit holds the flag of the last entry for it, and a bit without an
/// entry keeps its value.
pub proof fn lemma_port_bits_follow_the_flags(port_value: u8, bit_flags: Seq<(u8, bool)>, bit: u8)
    requires
        are_bit_indices(bit_flags),
        bit < 8,
    ensures
        bit_of(port_value_with_flags(port_value, bit_flags), bit) == last_flag_for(
            bit_flags,
            bit,
            bit_of(port_value, bit),
        ),
    decreases bit_flags.len(),
{
    if bit_flags.len() > 0 {
        let rest = bit_flags.drop_last();
        assert(are_bit_indices(rest)) by {
            assert forall|i: int| 0 <= i < rest.len() implies #[trigger] rest[i].0 < 8 by {
                assert(rest[i] == bit_flags[i]);
            }
        }
        assert(bit_flags.last().0 < 8);
        lemma_port_bits_follow_the_flags(port_value, rest, bit);
        lemma_bits_after_setting_one(
            port_value_with_flags(port_value, rest),
            bit_flags.last().0,
            bit_flags.last().1,
            port_value_with_flags(port_value, bit_flags),
        );
    }
}

/// In Space Invaders, input port 0 shows either player's shot, left and
/// right in bits 4, 5 and 6; its other bits keep their values.
pub proof fn lemma_space_invaders_port_0_bits(inputs: SpaceInvadersInputs, dip_switches: SpaceInvadersDipSwitches, value: u8)
    ensures
        ({
            let port = port_value_with_flags(value, inputs.port_flags(dip_switches, 0));
            &&& bit_of(port, 4) == (inputs.p1_shoot || inputs.p2_shoot)
            &&& bit_of(port, 5) == (inputs.p1_left || inputs.p2_left)
            &&& bit_of(port, 6) == (inputs.p1_right || inputs.p2_right)
            &&& bit_of(port, 0) == bit_of(value, 0)
            &&& bit_of(port, 1) == bit_of(value, 1)
            &&& bit_of(port, 2) == bit_of(value, 2)
            &&& bit_of(port, 3) == bit_of(value, 3)
            &&& bit_of(port, 7) == bit_of(value, 7)
        }),
{
    reveal_with_fuel(last_flag_for, 9);
    let flags = inputs.port_flags(dip_switches, 0);
    lemma_port_bits_follow_the_flags(value, flags, 0u8);
    lemma_port_bits_follow_the_flags(value, flags, 1u8);
    lemma_port_bits_follow_the_flags(value, flags, 2u8);
    lemma_port_bits_follow_the_flags(value, flags, 3u8);
    lemma_port_bits_follow_the_flags(value, flags, 4u8);
    lemma_port_bits_follow_the_flags(value, flags, 5u8);
    lemma_port_bits_follow_the_flags(value, flags, 6u8);
    lemma_port_bits_follow_the_flags(value, flags, 7u8);
}

/// In Space Invaders, input port 1 shows the credit in bit 0, the
/// two-player start in bit 1, the one-player start in bit 2 and player
/// one's shot, left and right in bits 4, 5 and 6; bits 3 and 7 keep their
/// values.
pub proof fn lemma_space_invaders_port_1_bits(inputs: SpaceInvadersInputs, dip_switches: SpaceInvadersDipSwitches, value: u8)
    ensures
        ({
            let port = port_value_with_flags(value, inputs.port_flags(dip_switches, 1));
            &&& bit_of(port, 0) == inputs.credit
            &&& bit_of(port, 1) == inputs.p2_start
            &&& bit_of(port, 2) == inputs.p1_start
            &&& bit_of(port, 4) == inputs.p1_shoot
            &&& bit_of(port, 5) == inputs.p1_left
            &&& bit_of(port, 6) == inputs.p1_right
            &&& bit_of(port, 3) == bit_of(value, 3)
            &&& bit_of(port, 7) == bit_of(value, 7)
        }),
{
    reveal_with_fuel(last_flag_for, 9);
    let flags = inputs.port_flags(dip_switches, 1);
    lemma_port_bits_follow_the_flags(value, flags, 0u8);
    lemma_port_bits_follow_the_flags(value, flags, 1u8);
    lemma_port_bits_follow_the_flags(value, flags, 2u8);
    lemma_port_bits_follow_the_flags(value, flags, 3u8);
    lemma_port_bits_follow_the_flags(value, flags, 4u8);
    lemma_port_bits_follow_the_flags(value, flags, 5u8);
    lemma_port_bits_follow_the_flags(value, flags, 6u8);
    lemma_port_bits_follow_the_flags(value, flags, 7u8);
}

/// In Space Invaders, input port 2 shows the ship-count switches in bits 0
/// and 1, the tilt in bit 2, the extra-ship switch in bit 3, player two's
/// shot, left and right in bits 4, 5 and 6 and the coin-info switch in
/// bit 7.
pub proof fn lemma_space_invaders_port_2_bits(inputs: SpaceInvadersInputs, dip_switches: SpaceInvadersDipSwitches, value: u8)
    ensures
        ({
            let port = port_value_with_flags(value, inputs.port_flags(dip_switches, 2));
            &&& bit_of(port, 0) == dip_switches.num_ships_low
            &&& bit_of(port, 1) == dip_switches.num_ships_high
            &&& bit_of(port, 2) == inputs.tilt
            &&& bit_of(port, 3) == dip_switches.extra_ship_at_lower_score
            &&& bit_of(port, 4) == inputs.p2_shoot
            &&& bit_of(port, 5) == inputs.p2_left
            &&& bit_of(port, 6) == inputs.p2_right
            &&& bit_of(port, 7) == dip_switches.coin_info_off
        }),
{
    reveal_with_fuel(last_flag_for, 9);
    let flags = inputs.port_flags(dip_switches, 2);
    lemma_port_bits_follow_the_flags(value, flags, 0u8);
    lemma_port_bits_follow_the_flags(value, flags, 1u8);
    lemma_port_bits_follow_the_flags(value, flags, 2u8);
    lemma_port_bits_follow_the_flags(value, flags, 3u8);
    lemma_port_bits_follow_the_flags(value, flags, 4u8);
    lemma_port_bits_follow_the_flags(value, flags, 5u8);
    lemma_port_bits_follow_the_flags(value, flags, 6u8);
    lemma_port_bits_follow_the_flags(value, flags, 7u8);
}

/// In Boot Hill, input port 0 shows player two's up, down, left and right
/// in bits 0 to 3 and player two's shot in bit 7; bits 4 to 6 keep their
/// values.
pub proof fn lemma_boot_hill_port_0_bits(inputs: BootHillInputs, value: u8)
    ensures
        ({
            let port = port_value_with_flags(value, inputs.port_flags(0));
            &&& bit_of(port, 0) == inputs.p2_up
            &&& bit_of(port, 1) == inputs.p2_down
            &&& bit_of(port, 2) == inputs.p2_left
            &&& bit_of(port, 3) == inputs.p2_right
            &&& bit_of(port, 7) == inputs.p2_shoot
            &&& bit_of(port, 4) == bit_of(value, 4)
            &&& bit_of(port, 5) == bit_of(value, 5)
            &&& bit_of(port, 6) == bit_of(value, 6)
        }),
{
    reveal_with_fuel(last_flag_for, 9);
    let flags = inputs.port_flags(0);
    lemma_port_bits_follow_the_flags(value, flags, 0u8);
    lemma_port_bits_follow_the_flags(value, flags, 1u8);
    lemma_port_bits_follow_the_flags(value, flags, 2u8);
    lemma_port_bits_follow_the_flags(value, flags, 3u8);
    lemma_port_bits_follow_the_flags(value, flags, 4u8);
    lemma_port_bits_follow_the_flags(value, flags, 5u8);
    lemma_port_bits_follow_the_flags(value, flags, 6u8);
    lemma_port_bits_follow_the_flags(value, flags, 7u8);
}

/// In Boot Hill, input port 1 shows player one's up, down, left and right
/// in bits 0 to 3 and player one's shot in bit 7; bits 4 to 6 keep their
/// values.
pub proof fn lemma_boot_hill_port_1_bits(inputs: BootHillInputs, value: u8)
    ensures
        ({
            let port = port_value_with_flags(value, inputs.port_flags(1));
            &&& bit_of(port, 0) == inputs.p1_up
            &&& bit_of(port, 1) == inputs.p1_down
            &&& bit_of(port, 2) == inputs.p1_left
            &&& bit_of(port, 3) == inputs.p1_right
            &&& bit_of(port, 7) == inputs.p1_shoot
            &&& bit_of(port, 4) == bit_of(value, 4)
            &&& bit_of(port, 5) == bit_of(value, 5)
            &&& bit_of(port, 6) == bit_of(value, 6)
        }),
{
    reveal_with_fuel(last_flag_for, 9);
    let flags = inputs.port_flags(1);
    lemma_port_bits_follow_the_flags(value, flags, 0u8);
    lemma_port_bits_follow_the_flags(value, flags, 1u8);
    lemma_port_bits_follow_the_flags(value, flags, 2u8);
    lemma_port_bits_follow_the_flags(value, flags, 3u8);
    lemma_port_bits_follow_the_flags(value, flags, 4u8);
    lemma_port_bits_follow_the_flags(value, flags, 5u8);
    lemma_port_bits_follow_the_flags(value, flags, 6u8);
    lemma_port_bits_follow_the_flags(value, flags, 7u8);
}

/// In Boot Hill, input port 2 shows the one-player start in bit 5, the
/// credit in bit 6 and the two-player start in bit 7; bits 0 to 4 keep
/// their values.
pub proof fn lemma_boot_hill_port_2_bits(inputs: BootHillInputs, value: u8)
    ensures
        ({
            let port = port_value_with_flags(value, inputs.port_flags(2));
            &&& bit_of(port, 5) == inputs.p1_start
            &&& bit_of(port, 6) == inputs.credit
            &&& bit_of(port, 7) == inputs.p2_start
            &&& bit_of(port, 0) == bit_of(value, 0)
            &&& bit_of(port, 1) == bit_of(value, 1)
            &&& bit_of(port, 2) == bit_of(value, 2)
            &&& bit_of(port, 3) == bit_of(value, 3)
            &&& bit_of(port, 4) == bit_of(value, 4)
        }),
{
    reveal_with_fuel(last_flag_for, 9);
    let flags = inputs.port_flags(2);
    lemma_port_bits_follow_the_flags(value, flags, 0u8);
    lemma_port_bits_follow_the_flags(value, flags, 1u8);
    lemma_port_bits_follow_the_flags(value, flags, 2u8);
    lemma_port_bits_follow_the_flags(value, flags, 3u8);
    lemma_port_bits_follow_the_flags(value, flags, 4u8);
    lemma_port_bits_follow_the_flags(value, flags, 5u8);
    lemma_port_bits_follow_the_flags(value, flags, 6u8);
    lemma_port_bits_follow_the_flags(value, flags, 7u8);
}

/// Whether bit `bit_index` goes from clear to set when `new_value` is
/// written over `port_value`.
pub open spec fn is_rising_bit(port_value: u8, new_value: u8, bit_index: u8) -> bool {
    bit_of(new_value, bit_index) && !bit_of(port_value, bit_index)
}

/// Writing Space Invaders output port 3 starts the UFO sound when bit 0
/// rises, the shot when bit 1 rises, the player's explosion when bit 2
/// rises and the invader's death when bit 3 rises; writing output port 5
/// starts the four invader steps when bits 0 to 3 rise and the UFO's death
/// when bit 4 rises. No other bit and no other port starts a sound.
pub proof fn lemma_space_invaders_sounds_follow_their_bits(port_value: u8, new_value: u8)
    ensures
        ({
            let port_3 = sounds_started(3, port_value, new_value);
            &&& port_3.contains(SoundName::UfoFly) == is_rising_bit(port_value, new_value, 0)
            &&& port_3.contains(SoundName::Shoot) == is_rising_bit(port_value, new_value, 1)
            &&& port_3.contains(SoundName::PlayerKilled) == is_rising_bit(port_value, new_value, 2)
            &&& port_3.contains(SoundName::InvaderKilled) == is_rising_bit(port_value, new_value, 3)
            &&& forall|i: int|
                0 <= i < port_3.len() ==> (#[trigger] port_3[i] == SoundName::UfoFly || port_3[i]
                    == SoundName::Shoot || port_3[i] == SoundName::PlayerKilled || port_3[i]
                    == SoundName::InvaderKilled)
        }),
        ({
            let port_5 = sounds_started(5, port_value, new_value);
            &&& port_5.contains(SoundName::InvaderMovement1) == is_rising_bit(port_value, new_value, 0)
            &&& port_5.contains(SoundName::InvaderMovement2) == is_rising_bit(port_value, new_value, 1)
            &&& port_5.contains(SoundName::InvaderMovement3) == is_rising_bit(port_value, new_value, 2)
            &&& port_5.contains(SoundName::InvaderMovement4) == is_rising_bit(port_value, new_value, 3)
            &&& port_5.contains(SoundName::UfoKilled) == is_rising_bit(port_value, new_value, 4)
            &&& forall|i: int|
                0 <= i < port_5.len() ==> (#[trigger] port_5[i] == SoundName::InvaderMovement1
                    || port_5[i] == SoundName::InvaderMovement2 || port_5[i]
                    == SoundName::InvaderMovement3 || port_5[i] == SoundName::InvaderMovement4
                    || port_5[i] == SoundName::UfoKilled)
        }),
        forall|port_number: u8|
            port_number != 3 && port_number != 5 ==> #[trigger] sounds_started(
                port_number,
                port_value,
                new_value,
            ).len() == 0,
{
    lemma_sounds_start_on_rising_edges(3, port_value, new_value);
    lemma_sounds_start_on_rising_edges(5, port_value, new_value);
    let port_3 = sounds_started(3, port_value, new_value);
    let port_5 = sounds_started(5, port_value, new_value);
    assert(sound_of_bit(3, 0) == Some(SoundName::UfoFly));
    assert(sound_of_bit(3, 1) == Some(SoundName::Shoot));
    assert(sound_of_bit(3, 2) == Some(SoundName::PlayerKilled));
    assert(sound_of_bit(3, 3) == Some(SoundName::InvaderKilled));
    assert(sound_of_bit(5, 0) == Some(SoundName::InvaderMovement1));
    assert(sound_of_bit(5, 1) == Some(SoundName::InvaderMovement2));
    assert(sound_of_bit(5, 2) == Some(SoundName::InvaderMovement3));
    assert(sound_of_bit(5, 3) == Some(SoundName::InvaderMovement4));
    assert(sound_of_bit(5, 4) == Some(SoundName::UfoKilled));
    assert forall|i: int| 0 <= i < port_3.len() implies (#[trigger] port_3[i] == SoundName::UfoFly
        || port_3[i] == SoundName::Shoot || port_3[i] == SoundName::PlayerKilled || port_3[i]
        == SoundName::InvaderKilled) by {
        assert(is_rising_edge_sound(3, port_value, new_value, port_3[i]));
        let bit = choose|bit: u8|
            bit < 8 && bit_of(new_value, bit) && !bit_of(port_value, bit) && #[trigger] sound_of_bit(
                3,
                bit,
            ) == Some(port_3[i]);
        assert(sound_of_bit(3, bit) == Some(port_3[i]));
    }
    assert forall|i: int| 0 <= i < port_5.len() implies (#[trigger] port_5[i]
        == SoundName::InvaderMovement1 || port_5[i] == SoundName::InvaderMovement2 || port_5[i]
        == SoundName::InvaderMovement3 || port_5[i] == SoundName::InvaderMovement4 || port_5[i]
        == SoundName::UfoKilled) by {
        assert(is_rising_edge_sound(5, port_value, new_value, port_5[i]));
        let bit = choose|bit: u8|
            bit < 8 && bit_of(new_value, bit) && !bit_of(port_value, bit) && #[trigger] sound_of_bit(
                5,
                bit,
            ) == Some(port_5[i]);
        assert(sound_of_bit(5, bit) == Some(port_5[i]));
    }
    assert forall|port_number: u8| port_number != 3 && port_number != 5 implies #[trigger] sounds_started(
        port_number,
        port_value,
        new_value,
    ).len() == 0 by {
        lemma_sounds_start_on_rising_edges(port_number, port_value, new_value);
        let sounds = sounds_started(port_number, port_value, new_value);
        if sounds.len() > 0 {
            assert(is_rising_edge_sound(port_number, port_value, new_value, sounds[0]));
        }
    }
}

} // verus!
