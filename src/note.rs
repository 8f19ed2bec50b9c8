use vstd::prelude::*;

use crate::tuning::{midi_frequency, midi_frequency_of};

verus! {

/// Lowest MIDI code that a note can stand for.
pub const NOTE_CODE_MIN: u8 = 11;

/// Highest MIDI code that a note can stand for.
pub const NOTE_CODE_MAX: u8 = 133;

/// Named notes, usable in place of MIDI codes. `C4` stands for MIDI code 60; the two
/// bounds stand just below `C0` and just above `C10`.
#[derive(Debug, Clone, Copy, PartialEq, Eq, Structural)]
pub enum Note {
    LowerBound, C0, CSharp0, D0, DSharp0, E0, F0, FSharp0, G0, GSharp0, A0, ASharp0,
    B0, C1, CSharp1, D1, DSharp1, E1, F1, FSharp1, G1, GSharp1, A1, ASharp1,
    B1, C2, CSharp2, D2, DSharp2, E2, F2, FSharp2, G2, GSharp2, A2, ASharp2,
    B2, C3, CSharp3, D3, DSharp3, E3, F3, FSharp3, G3, GSharp3, A3, ASharp3,
    B3, C4, CSharp4, D4, DSharp4, E4, F4, FSharp4, G4, GSharp4, A4, ASharp4,
    B4, C5, CSharp5, D5, DSharp5, E5, F5, FSharp5, G5, GSharp5, A5, ASharp5,
    B5, C6, CSharp6, D6, DSharp6, E6, F6, FSharp6, G6, GSharp6, A6, ASharp6,
    B6, C7, CSharp7, D7, DSharp7, E7, F7, FSharp7, G7, GSharp7, A7, ASharp7,
    B7, C8, CSharp8, D8, DSharp8, E8, F8, FSharp8, G8, GSharp8, A8, ASharp8,
    B8, C9, CSharp9, D9, DSharp9, E9, F9, FSharp9, G9, GSharp9, A9, ASharp9,
    B9, C10, UpperBound,
}

/// Clamps a MIDI code into the range that `Note` covers.
pub open spec fn clamp_note_code(value: int) -> int {
    if value < NOTE_CODE_MIN { NOTE_CODE_MIN as int } else if value > NOTE_CODE_MAX { NOTE_CODE_MAX as int } else { value }
}

impl Note {
    /// The MIDI code of a note.
    pub open spec fn code(self) -> int {
        match self {
            Note::LowerBound => 11,
            Note::C0 => 12,
            Note::CSharp0 => 13,
            Note::D0 => 14,
            Note::DSharp0 => 15,
            Note::E0 => 16,
            Note::F0 => 17,
            Note::FSharp0 => 18,
            Note::G0 => 19,
            Note::GSharp0 => 20,
            Note::A0 => 21,
            Note::ASharp0 => 22,
            Note::B0 => 23,
            Note::C1 => 24,
            Note::CSharp1 => 25,
            Note::D1 => 26,
            Note::DSharp1 => 27,
            Note::E1 => 28,
            Note::F1 => 29,
            Note::FSharp1 => 30,
            Note::G1 => 31,
            Note::GSharp1 => 32,
            Note::A1 => 33,
            Note::ASharp1 => 34,
            Note::B1 => 35,
            Note::C2 => 36,
            Note::CSharp2 => 37,
            Note::D2 => 38,
            Note::DSharp2 => 39,
            Note::E2 => 40,
            Note::F2 => 41,
            Note::FSharp2 => 42,
            Note::G2 => 43,
            Note::GSharp2 => 44,
            Note::A2 => 45,
            Note::ASharp2 => 46,
            Note::B2 => 47,
            Note::C3 => 48,
            Note::CSharp3 => 49,
            Note::D3 => 50,
            Note::DSharp3 => 51,
            Note::E3 => 52,
            Note::F3 => 53,
            Note::FSharp3 => 54,
            Note::G3 => 55,
            Note::GSharp3 => 56,
            Note::A3 => 57,
            Note::ASharp3 => 58,
            Note::B3 => 59,
            Note::C4 => 60,
            Note::CSharp4 => 61,
            Note::D4 => 62,
            Note::DSharp4 => 63,
            Note::E4 => 64,
            Note::F4 => 65,
            Note::FSharp4 => 66,
            Note::G4 => 67,
            Note::GSharp4 => 68,
            Note::A4 => 69,
            Note::ASharp4 => 70,
            Note::B4 => 71,
            Note::C5 => 72,
            Note::CSharp5 => 73,
            Note::D5 => 74,
            Note::DSharp5 => 75,
            Note::E5 => 76,
            Note::F5 => 77,
            Note::FSharp5 => 78,
            Note::G5 => 79,
            Note::GSharp5 => 80,
            Note::A5 => 81,
            Note::ASharp5 => 82,
            Note::B5 => 83,
            Note::C6 => 84,
            Note::CSharp6 => 85,
            Note::D6 => 86,
            Note::DSharp6 => 87,
            Note::E6 => 88,
            Note::F6 => 89,
            Note::FSharp6 => 90,
            Note::G6 => 91,
            Note::GSharp6 => 92,
            Note::A6 => 93,
            Note::ASharp6 => 94,
            Note::B6 => 95,
            Note::C7 => 96,
            Note::CSharp7 => 97,
            Note::D7 => 98,
            Note::DSharp7 => 99,
            Note::E7 => 100,
            Note::F7 => 101,
            Note::FSharp7 => 102,
            Note::G7 => 103,
            Note::GSharp7 => 104,
            Note::A7 => 105,
            Note::ASharp7 => 106,
            Note::B7 => 107,
            Note::C8 => 108,
            Note::CSharp8 => 109,
            Note::D8 => 110,
            Note::DSharp8 => 111,
            Note::E8 => 112,
            Note::F8 => 113,
            Note::FSharp8 => 114,
            Note::G8 => 115,
            Note::GSharp8 => 116,
            Note::A8 => 117,
            Note::ASharp8 => 118,
            Note::B8 => 119,
            Note::C9 => 120,
            Note::CSharp9 => 121,
            Note::D9 => 122,
            Note::DSharp9 => 123,
            Note::E9 => 124,
            Note::F9 => 125,
            Note::FSharp9 => 126,
            Note::G9 => 127,
            Note::GSharp9 => 128,
            Note::A9 => 129,
            Note::ASharp9 => 130,
            Note::B9 => 131,
            Note::C10 => 132,
            Note::UpperBound => 133,
        }
    }

    /// Corresponding MIDI note.
    pub fn midi_note(self) -> (r: u8)
        ensures
            r == self.code(),
            NOTE_CODE_MIN <= r <= NOTE_CODE_MAX,
    {
        match self {
            Note::LowerBound => 11,
            Note::C0 => 12,
            Note::CSharp0 => 13,
            Note::D0 => 14,
            Note::DSharp0 => 15,
            Note::E0 => 16,
            Note::F0 => 17,
            Note::FSharp0 => 18,
            Note::G0 => 19,
            Note::GSharp0 => 20,
            Note::A0 => 21,
            Note::ASharp0 => 22,
            Note::B0 => 23,
            Note::C1 => 24,
            Note::CSharp1 => 25,
            Note::D1 => 26,
            Note::DSharp1 => 27,
            Note::E1 => 28,
            Note::F1 => 29,
            Note::FSharp1 => 30,
            Note::G1 => 31,
            Note::GSharp1 => 32,
            Note::A1 => 33,
            Note::ASharp1 => 34,
            Note::B1 => 35,
            Note::C2 => 36,
            Note::CSharp2 => 37,
            Note::D2 => 38,
            Note::DSharp2 => 39,
            Note::E2 => 40,
            Note::F2 => 41,
            Note::FSharp2 => 42,
            Note::G2 => 43,
            Note::GSharp2 => 44,
            Note::A2 => 45,
            Note::ASharp2 => 46,
            Note::B2 => 47,
            Note::C3 => 48,
            Note::CSharp3 => 49,
            Note::D3 => 50,
            Note::DSharp3 => 51,
            Note::E3 => 52,
            Note::F3 => 53,
            Note::FSharp3 => 54,
            Note::G3 => 55,
            Note::GSharp3 => 56,
            Note::A3 => 57,
            Note::ASharp3 => 58,
            Note::B3 => 59,
            Note::C4 => 60,
            Note::CSharp4 => 61,
            Note::D4 => 62,
            Note::DSharp4 => 63,
            Note::E4 => 64,
            Note::F4 => 65,
            Note::FSharp4 => 66,
            Note::G4 => 67,
            Note::GSharp4 => 68,
            Note::A4 => 69,
            Note::ASharp4 => 70,
            Note::B4 => 71,
            Note::C5 => 72,
            Note::CSharp5 => 73,
            Note::D5 => 74,
            Note::DSharp5 => 75,
            Note::E5 => 76,
            Note::F5 => 77,
            Note::FSharp5 => 78,
            Note::G5 => 79,
            Note::GSharp5 => 80,
            Note::A5 => 81,
            Note::ASharp5 => 82,
            Note::B5 => 83,
            Note::C6 => 84,
            Note::CSharp6 => 85,
            Note::D6 => 86,
            Note::DSharp6 => 87,
            Note::E6 => 88,
            Note::F6 => 89,
            Note::FSharp6 => 90,
            Note::G6 => 91,
            Note::GSharp6 => 92,
            Note::A6 => 93,
            Note::ASharp6 => 94,
            Note::B6 => 95,
            Note::C7 => 96,
            Note::CSharp7 => 97,
            Note::D7 => 98,
            Note::DSharp7 => 99,
            Note::E7 => 100,
            Note::F7 => 101,
            Note::FSharp7 => 102,
            Note::G7 => 103,
            Note::GSharp7 => 104,
            Note::A7 => 105,
            Note::ASharp7 => 106,
            Note::B7 => 107,
            Note::C8 => 108,
            Note::CSharp8 => 109,
            Note::D8 => 110,
            Note::DSharp8 => 111,
            Note::E8 => 112,
            Note::F8 => 113,
            Note::FSharp8 => 114,
            Note::G8 => 115,
            Note::GSharp8 => 116,
            Note::A8 => 117,
            Note::ASharp8 => 118,
            Note::B8 => 119,
            Note::C9 => 120,
            Note::CSharp9 => 121,
            Note::D9 => 122,
            Note::DSharp9 => 123,
            Note::E9 => 124,
            Note::F9 => 125,
            Note::FSharp9 => 126,
            Note::G9 => 127,
            Note::GSharp9 => 128,
            Note::A9 => 129,
            Note::ASharp9 => 130,
            Note::B9 => 131,
            Note::C10 => 132,
            Note::UpperBound => 133,
        }
    }

    /// The note for a MIDI code, saturating at the two bounds.
    pub fn from_code(value: u8) -> (r: Note)
        ensures
            r.code() == clamp_note_code(value as int),
    {
        if value <= NOTE_CODE_MIN {
            return Note::LowerBound;
        }
        if value >= NOTE_CODE_MAX {
            return Note::UpperBound;
        }
        match value {
            12 => Note::C0,
            13 => Note::CSharp0,
            14 => Note::D0,
            15 => Note::DSharp0,
            16 => Note::E0,
            17 => Note::F0,
            18 => Note::FSharp0,
            19 => Note::G0,
            20 => Note::GSharp0,
            21 => Note::A0,
            22 => Note::ASharp0,
            23 => Note::B0,
            24 => Note::C1,
            25 => Note::CSharp1,
            26 => Note::D1,
            27 => Note::DSharp1,
            28 => Note::E1,
            29 => Note::F1,
            30 => Note::FSharp1,
            31 => Note::G1,
            32 => Note::GSharp1,
            33 => Note::A1,
            34 => Note::ASharp1,
            35 => Note::B1,
            36 => Note::C2,
            37 => Note::CSharp2,
            38 => Note::D2,
            39 => Note::DSharp2,
            40 => Note::E2,
            41 => Note::F2,
            42 => Note::FSharp2,
            43 => Note::G2,
            44 => Note::GSharp2,
            45 => Note::A2,
            46 => Note::ASharp2,
            47 => Note::B2,
            48 => Note::C3,
            49 => Note::CSharp3,
            50 => Note::D3,
            51 => Note::DSharp3,
            52 => Note::E3,
            53 => Note::F3,
            54 => Note::FSharp3,
            55 => Note::G3,
            56 => Note::GSharp3,
            57 => Note::A3,
            58 => Note::ASharp3,
            59 => Note::B3,
            60 => Note::C4,
            61 => Note::CSharp4,
            62 => Note::D4,
            63 => Note::DSharp4,
            64 => Note::E4,
            65 => Note::F4,
            66 => Note::FSharp4,
            67 => Note::G4,
            68 => Note::GSharp4,
            69 => Note::A4,
            70 => Note::ASharp4,
            71 => Note::B4,
            72 => Note::C5,
            73 => Note::CSharp5,
            74 => Note::D5,
            75 => Note::DSharp5,
            76 => Note::E5,
            77 => Note::F5,
            78 => Note::FSharp5,
            79 => Note::G5,
            80 => Note::GSharp5,
            81 => Note::A5,
            82 => Note::ASharp5,
            83 => Note::B5,
            84 => Note::C6,
            85 => Note::CSharp6,
            86 => Note::D6,
            87 => Note::DSharp6,
            88 => Note::E6,
            89 => Note::F6,
            90 => Note::FSharp6,
            91 => Note::G6,
            92 => Note::GSharp6,
            93 => Note::A6,
            94 => Note::ASharp6,
            95 => Note::B6,
            96 => Note::C7,
            97 => Note::CSharp7,
            98 => Note::D7,
            99 => Note::DSharp7,
            100 => Note::E7,
            101 => Note::F7,
            102 => Note::FSharp7,
            103 => Note::G7,
            104 => Note::GSharp7,
            105 => Note::A7,
            106 => Note::ASharp7,
            107 => Note::B7,
            108 => Note::C8,
            109 => Note::CSharp8,
            110 => Note::D8,
            111 => Note::DSharp8,
            112 => Note::E8,
            113 => Note::F8,
            114 => Note::FSharp8,
            115 => Note::G8,
            116 => Note::GSharp8,
            117 => Note::A8,
            118 => Note::ASharp8,
            119 => Note::B8,
            120 => Note::C9,
            121 => Note::CSharp9,
            122 => Note::D9,
            123 => Note::DSharp9,
            124 => Note::E9,
            125 => Note::F9,
            126 => Note::FSharp9,
            127 => Note::G9,
            128 => Note::GSharp9,
            129 => Note::A9,
            130 => Note::ASharp9,
            131 => Note::B9,
            132 => Note::C10,
            _ => Note::UpperBound,
        }
    }

    /// Corresponding frequency, in millihertz.
    pub fn frequency(self) -> (r: u32)
        ensures
            r == midi_frequency(self.code()),
    {
        midi_frequency_of(self.midi_note())
    }
}

} // verus!
