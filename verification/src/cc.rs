//! The closed set of named MIDI Control Change functions and its codec.

use crate::byte::U7;
use vstd::prelude::*;

verus! {

/// One named control function for each controller number `0..=127` of the
/// MIDI Control Change table: continuous controllers with their MSB half
/// (`0..=31`) and LSB half (`32..=63`), single-byte switches, sound and
/// effect controllers and parameter-number controls (`64..=101`), the
/// reserved slots (`102..=119`), and the Channel Mode messages
/// (`120..=127`). Reserved numbers keep distinct `Undefined*` variants so
/// that every protocol-legal number round-trips.
#[derive(Copy, Clone, Debug, PartialEq, Eq, Structural)]
pub enum ControlFunction {
    BankSelect,
    ModulationWheel,
    BreathController,
    Undefined3,
    FootController,
    PortamentoTime,
    DataEntryMSB,
    ChannelVolume,
    Balance,
    Undefined9,
    Pan,
    ExpressionController,
    EffectControl1,
    EffectControl2,
    Undefined14,
    Undefined15,
    GeneralPurposeController1,
    GeneralPurposeController2,
    GeneralPurposeController3,
    GeneralPurposeController4,
    Undefined20,
    Undefined21,
    Undefined22,
    Undefined23,
    Undefined24,
    Undefined25,
    Undefined26,
    Undefined27,
    Undefined28,
    Undefined29,
    Undefined30,
    Undefined31,
    BankSelectLSB,
    ModulationWheelLSB,
    BreathControllerLSB,
    Undefined3LSB,
    FootControllerLSB,
    PortamentoTimeLSB,
    DataEntryLSB,
    ChannelVolumeLSB,
    BalanceLSB,
    Undefined9LSB,
    PanLSB,
    ExpressionControllerLSB,
    EffectControl1LSB,
    EffectControl2LSB,
    Undefined14LSB,
    Undefined15LSB,
    GeneralPurposeController1LSB,
    GeneralPurposeController2LSB,
    GeneralPurposeController3LSB,
    GeneralPurposeController4LSB,
    Undefined20LSB,
    Undefined21LSB,
    Undefined22LSB,
    Undefined23LSB,
    Undefined24LSB,
    Undefined25LSB,
    Undefined26LSB,
    Undefined27LSB,
    Undefined28LSB,
    Undefined29LSB,
    Undefined30LSB,
    Undefined31LSB,
    DamperPedal,
    PortamentoOnOff,
    Sostenuto,
    SoftPedal,
    LegatoFootswitch,
    Hold2,
    SoundController1,
    SoundController2,
    SoundController3,
    SoundController4,
    SoundController5,
    SoundController6,
    SoundController7,
    SoundController8,
    SoundController9,
    SoundController10,
    GeneralPurposeController5,
    GeneralPurposeController6,
    GeneralPurposeController7,
    GeneralPurposeController8,
    PortamentoControl,
    Undefined85,
    Undefined86,
    Undefined87,
    Undefined88,
    Undefined89,
    Undefined90,
    Effects1Depth,
    Effects2Depth,
    Effects3Depth,
    Effects4Depth,
    Effects5Depth,
    DataIncrement,
    DataDecrement,
    NonRegisteredParameterNumberLSB,
    NonRegisteredParameterNumberMSB,
    RegisteredParameterNumberLSB,
    RegisteredParameterNumberMSB,
    Undefined102,
    Undefined103,
    Undefined104,
    Undefined105,
    Undefined106,
    Undefined107,
    Undefined108,
    Undefined109,
    Undefined110,
    Undefined111,
    Undefined112,
    Undefined113,
    Undefined114,
    Undefined115,
    Undefined116,
    Undefined117,
    Undefined118,
    Undefined119,
    AllSoundOff,
    ResetAllControllers,
    LocalControl,
    AllNotesOff,
    OmniModeOn,
    OmniModeOff,
    MonoOperation,
    PolyOperation,
}

/// The controller number the wire-level table assigns to each variant.
pub open spec fn control_number(f: ControlFunction) -> int {
    match f {
        ControlFunction::BankSelect => 0,
        ControlFunction::ModulationWheel => 1,
        ControlFunction::BreathController => 2,
        ControlFunction::Undefined3 => 3,
        ControlFunction::FootController => 4,
        ControlFunction::PortamentoTime => 5,
        ControlFunction::DataEntryMSB => 6,
        ControlFunction::ChannelVolume => 7,
        ControlFunction::Balance => 8,
        ControlFunction::Undefined9 => 9,
        ControlFunction::Pan => 10,
        ControlFunction::ExpressionController => 11,
        ControlFunction::EffectControl1 => 12,
        ControlFunction::EffectControl2 => 13,
        ControlFunction::Undefined14 => 14,
        ControlFunction::Undefined15 => 15,
        ControlFunction::GeneralPurposeController1 => 16,
        ControlFunction::GeneralPurposeController2 => 17,
        ControlFunction::GeneralPurposeController3 => 18,
        ControlFunction::GeneralPurposeController4 => 19,
        ControlFunction::Undefined20 => 20,
        ControlFunction::Undefined21 => 21,
        ControlFunction::Undefined22 => 22,
        ControlFunction::Undefined23 => 23,
        ControlFunction::Undefined24 => 24,
        ControlFunction::Undefined25 => 25,
        ControlFunction::Undefined26 => 26,
        ControlFunction::Undefined27 => 27,
        ControlFunction::Undefined28 => 28,
        ControlFunction::Undefined29 => 29,
        ControlFunction::Undefined30 => 30,
        ControlFunction::Undefined31 => 31,
        ControlFunction::BankSelectLSB => 32,
        ControlFunction::ModulationWheelLSB => 33,
        ControlFunction::BreathControllerLSB => 34,
        ControlFunction::Undefined3LSB => 35,
        ControlFunction::FootControllerLSB => 36,
        ControlFunction::PortamentoTimeLSB => 37,
        ControlFunction::DataEntryLSB => 38,
        ControlFunction::ChannelVolumeLSB => 39,
        ControlFunction::BalanceLSB => 40,
        ControlFunction::Undefined9LSB => 41,
        ControlFunction::PanLSB => 42,
        ControlFunction::ExpressionControllerLSB => 43,
        ControlFunction::EffectControl1LSB => 44,
        ControlFunction::EffectControl2LSB => 45,
        ControlFunction::Undefined14LSB => 46,
        ControlFunction::Undefined15LSB => 47,
        ControlFunction::GeneralPurposeController1LSB => 48,
        ControlFunction::GeneralPurposeController2LSB => 49,
        ControlFunction::GeneralPurposeController3LSB => 50,
        ControlFunction::GeneralPurposeController4LSB => 51,
        ControlFunction::Undefined20LSB => 52,
        ControlFunction::Undefined21LSB => 53,
        ControlFunction::Undefined22LSB => 54,
        ControlFunction::Undefined23LSB => 55,
        ControlFunction::Undefined24LSB => 56,
        ControlFunction::Undefined25LSB => 57,
        ControlFunction::Undefined26LSB => 58,
        ControlFunction::Undefined27LSB => 59,
        ControlFunction::Undefined28LSB => 60,
        ControlFunction::Undefined29LSB => 61,
        ControlFunction::Undefined30LSB => 62,
        ControlFunction::Undefined31LSB => 63,
        ControlFunction::DamperPedal => 64,
        ControlFunction::PortamentoOnOff => 65,
        ControlFunction::Sostenuto => 66,
        ControlFunction::SoftPedal => 67,
        ControlFunction::LegatoFootswitch => 68,
        ControlFunction::Hold2 => 69,
        ControlFunction::SoundController1 => 70,
        ControlFunction::SoundController2 => 71,
        ControlFunction::SoundController3 => 72,
        ControlFunction::SoundController4 => 73,
        ControlFunction::SoundController5 => 74,
        ControlFunction::SoundController6 => 75,
        ControlFunction::SoundController7 => 76,
        ControlFunction::SoundController8 => 77,
        ControlFunction::SoundController9 => 78,
        ControlFunction::SoundController10 => 79,
        ControlFunction::GeneralPurposeController5 => 80,
        ControlFunction::GeneralPurposeController6 => 81,
        ControlFunction::GeneralPurposeController7 => 82,
        ControlFunction::GeneralPurposeController8 => 83,
        ControlFunction::PortamentoControl => 84,
        ControlFunction::Undefined85 => 85,
        ControlFunction::Undefined86 => 86,
        ControlFunction::Undefined87 => 87,
        ControlFunction::Undefined88 => 88,
        ControlFunction::Undefined89 => 89,
        ControlFunction::Undefined90 => 90,
        ControlFunction::Effects1Depth => 91,
        ControlFunction::Effects2Depth => 92,
        ControlFunction::Effects3Depth => 93,
        ControlFunction::Effects4Depth => 94,
        ControlFunction::Effects5Depth => 95,
        ControlFunction::DataIncrement => 96,
        ControlFunction::DataDecrement => 97,
        ControlFunction::NonRegisteredParameterNumberLSB => 98,
        ControlFunction::NonRegisteredParameterNumberMSB => 99,
        ControlFunction::RegisteredParameterNumberLSB => 100,
        ControlFunction::RegisteredParameterNumberMSB => 101,
        ControlFunction::Undefined102 => 102,
        ControlFunction::Undefined103 => 103,
        ControlFunction::Undefined104 => 104,
        ControlFunction::Undefined105 => 105,
        ControlFunction::Undefined106 => 106,
        ControlFunction::Undefined107 => 107,
        ControlFunction::Undefined108 => 108,
        ControlFunction::Undefined109 => 109,
        ControlFunction::Undefined110 => 110,
        ControlFunction::Undefined111 => 111,
        ControlFunction::Undefined112 => 112,
        ControlFunction::Undefined113 => 113,
        ControlFunction::Undefined114 => 114,
        ControlFunction::Undefined115 => 115,
        ControlFunction::Undefined116 => 116,
        ControlFunction::Undefined117 => 117,
        ControlFunction::Undefined118 => 118,
        ControlFunction::Undefined119 => 119,
        ControlFunction::AllSoundOff => 120,
        ControlFunction::ResetAllControllers => 121,
        ControlFunction::LocalControl => 122,
        ControlFunction::AllNotesOff => 123,
        ControlFunction::OmniModeOn => 124,
        ControlFunction::OmniModeOff => 125,
        ControlFunction::MonoOperation => 126,
        ControlFunction::PolyOperation => 127,
    }
}

/// The variant the wire-level table assigns to each controller number in
/// `0..128`; numbers outside that range are never handed in.
pub open spec fn control_of(n: int) -> ControlFunction {
    if n == 0 {
        ControlFunction::BankSelect
    } else if n == 1 {
        ControlFunction::ModulationWheel
    } else if n == 2 {
        ControlFunction::BreathController
    } else if n == 3 {
        ControlFunction::Undefined3
    } else if n == 4 {
        ControlFunction::FootController
    } else if n == 5 {
        ControlFunction::PortamentoTime
    } else if n == 6 {
        ControlFunction::DataEntryMSB
    } else if n == 7 {
        ControlFunction::ChannelVolume
    } else if n == 8 {
        ControlFunction::Balance
    } else if n == 9 {
        ControlFunction::Undefined9
    } else if n == 10 {
        ControlFunction::Pan
    } else if n == 11 {
        ControlFunction::ExpressionController
    } else if n == 12 {
        ControlFunction::EffectControl1
    } else if n == 13 {
        ControlFunction::EffectControl2
    } else if n == 14 {
        ControlFunction::Undefined14
    } else if n == 15 {
        ControlFunction::Undefined15
    } else if n == 16 {
        ControlFunction::GeneralPurposeController1
    } else if n == 17 {
        ControlFunction::GeneralPurposeController2
    } else if n == 18 {
        ControlFunction::GeneralPurposeController3
    } else if n == 19 {
        ControlFunction::GeneralPurposeController4
    } else if n == 20 {
        ControlFunction::Undefined20
    } else if n == 21 {
        ControlFunction::Undefined21
    } else if n == 22 {
        ControlFunction::Undefined22
    } else if n == 23 {
        ControlFunction::Undefined23
    } else if n == 24 {
        ControlFunction::Undefined24
    } else if n == 25 {
        ControlFunction::Undefined25
    } else if n == 26 {
        ControlFunction::Undefined26
    } else if n == 27 {
        ControlFunction::Undefined27
    } else if n == 28 {
        ControlFunction::Undefined28
    } else if n == 29 {
        ControlFunction::Undefined29
    } else if n == 30 {
        ControlFunction::Undefined30
    } else if n == 31 {
        ControlFunction::Undefined31
    } else if n == 32 {
        ControlFunction::BankSelectLSB
    } else if n == 33 {
        ControlFunction::ModulationWheelLSB
    } else if n == 34 {
        ControlFunction::BreathControllerLSB
    } else if n == 35 {
        ControlFunction::Undefined3LSB
    } else if n == 36 {
        ControlFunction::FootControllerLSB
    } else if n == 37 {
        ControlFunction::PortamentoTimeLSB
    } else if n == 38 {
        ControlFunction::DataEntryLSB
    } else if n == 39 {
        ControlFunction::ChannelVolumeLSB
    } else if n == 40 {
        ControlFunction::BalanceLSB
    } else if n == 41 {
        ControlFunction::Undefined9LSB
    } else if n == 42 {
        ControlFunction::PanLSB
    } else if n == 43 {
        ControlFunction::ExpressionControllerLSB
    } else if n == 44 {
        ControlFunction::EffectControl1LSB
    } else if n == 45 {
        ControlFunction::EffectControl2LSB
    } else if n == 46 {
        ControlFunction::Undefined14LSB
    } else if n == 47 {
        ControlFunction::Undefined15LSB
    } else if n == 48 {
        ControlFunction::GeneralPurposeController1LSB
    } else if n == 49 {
        ControlFunction::GeneralPurposeController2LSB
    } else if n == 50 {
        ControlFunction::GeneralPurposeController3LSB
    } else if n == 51 {
        ControlFunction::GeneralPurposeController4LSB
    } else if n == 52 {
        ControlFunction::Undefined20LSB
    } else if n == 53 {
        ControlFunction::Undefined21LSB
    } else if n == 54 {
        ControlFunction::Undefined22LSB
    } else if n == 55 {
        ControlFunction::Undefined23LSB
    } else if n == 56 {
        ControlFunction::Undefined24LSB
    } else if n == 57 {
        ControlFunction::Undefined25LSB
    } else if n == 58 {
        ControlFunction::Undefined26LSB
    } else if n == 59 {
        ControlFunction::Undefined27LSB
    } else if n == 60 {
        ControlFunction::Undefined28LSB
    } else if n == 61 {
        ControlFunction::Undefined29LSB
    } else if n == 62 {
        ControlFunction::Undefined30LSB
    } else if n == 63 {
        ControlFunction::Undefined31LSB
    } else if n == 64 {
        ControlFunction::DamperPedal
    } else if n == 65 {
        ControlFunction::PortamentoOnOff
    } else if n == 66 {
        ControlFunction::Sostenuto
    } else if n == 67 {
        ControlFunction::SoftPedal
    } else if n == 68 {
        ControlFunction::LegatoFootswitch
    } else if n == 69 {
        ControlFunction::Hold2
    } else if n == 70 {
        ControlFunction::SoundController1
    } else if n == 71 {
        ControlFunction::SoundController2
    } else if n == 72 {
        ControlFunction::SoundController3
    } else if n == 73 {
        ControlFunction::SoundController4
    } else if n == 74 {
        ControlFunction::SoundController5
    } else if n == 75 {
        ControlFunction::SoundController6
    } else if n == 76 {
        ControlFunction::SoundController7
    } else if n == 77 {
        ControlFunction::SoundController8
    } else if n == 78 {
        ControlFunction::SoundController9
    } else if n == 79 {
        ControlFunction::SoundController10
    } else if n == 80 {
        ControlFunction::GeneralPurposeController5
    } else if n == 81 {
        ControlFunction::GeneralPurposeController6
    } else if n == 82 {
        ControlFunction::GeneralPurposeController7
    } else if n == 83 {
        ControlFunction::GeneralPurposeController8
    } else if n == 84 {
        ControlFunction::PortamentoControl
    } else if n == 85 {
        ControlFunction::Undefined85
    } else if n == 86 {
        ControlFunction::Undefined86
    } else if n == 87 {
        ControlFunction::Undefined87
    } else if n == 88 {
        ControlFunction::Undefined88
    } else if n == 89 {
        ControlFunction::Undefined89
    } else if n == 90 {
        ControlFunction::Undefined90
    } else if n == 91 {
        ControlFunction::Effects1Depth
    } else if n == 92 {
        ControlFunction::Effects2Depth
    } else if n == 93 {
        ControlFunction::Effects3Depth
    } else if n == 94 {
        ControlFunction::Effects4Depth
    } else if n == 95 {
        ControlFunction::Effects5Depth
    } else if n == 96 {
        ControlFunction::DataIncrement
    } else if n == 97 {
        ControlFunction::DataDecrement
    } else if n == 98 {
        ControlFunction::NonRegisteredParameterNumberLSB
    } else if n == 99 {
        ControlFunction::NonRegisteredParameterNumberMSB
    } else if n == 100 {
        ControlFunction::RegisteredParameterNumberLSB
    } else if n == 101 {
        ControlFunction::RegisteredParameterNumberMSB
    } else if n == 102 {
        ControlFunction::Undefined102
    } else if n == 103 {
        ControlFunction::Undefined103
    } else if n == 104 {
        ControlFunction::Undefined104
    } else if n == 105 {
        ControlFunction::Undefined105
    } else if n == 106 {
        ControlFunction::Undefined106
    } else if n == 107 {
        ControlFunction::Undefined107
    } else if n == 108 {
        ControlFunction::Undefined108
    } else if n == 109 {
        ControlFunction::Undefined109
    } else if n == 110 {
        ControlFunction::Undefined110
    } else if n == 111 {
        ControlFunction::Undefined111
    } else if n == 112 {
        ControlFunction::Undefined112
    } else if n == 113 {
        ControlFunction::Undefined113
    } else if n == 114 {
        ControlFunction::Undefined114
    } else if n == 115 {
        ControlFunction::Undefined115
    } else if n == 116 {
        ControlFunction::Undefined116
    } else if n == 117 {
        ControlFunction::Undefined117
    } else if n == 118 {
        ControlFunction::Undefined118
    } else if n == 119 {
        ControlFunction::Undefined119
    } else if n == 120 {
        ControlFunction::AllSoundOff
    } else if n == 121 {
        ControlFunction::ResetAllControllers
    } else if n == 122 {
        ControlFunction::LocalControl
    } else if n == 123 {
        ControlFunction::AllNotesOff
    } else if n == 124 {
        ControlFunction::OmniModeOn
    } else if n == 125 {
        ControlFunction::OmniModeOff
    } else if n == 126 {
        ControlFunction::MonoOperation
    } else {
        ControlFunction::PolyOperation
    }
}

impl ControlFunction {
    /// Returns the unique variant whose assigned number equals `value`.
    ///
    /// Total over every well-formed 7-bit value: the 128 variants densely
    /// cover `0..=127`, so no input can fail.
    pub fn decode(value: U7) -> (f: ControlFunction)
        ensures
            f == control_of(value@ as int),
    {
        let n: u8 = value.value();
        if n == 0 {
            ControlFunction::BankSelect
        } else if n == 1 {
            ControlFunction::ModulationWheel
        } else if n == 2 {
            ControlFunction::BreathController
        } else if n == 3 {
            ControlFunction::Undefined3
        } else if n == 4 {
            ControlFunction::FootController
        } else if n == 5 {
            ControlFunction::PortamentoTime
        } else if n == 6 {
            ControlFunction::DataEntryMSB
        } else if n == 7 {
            ControlFunction::ChannelVolume
        } else if n == 8 {
            ControlFunction::Balance
        } else if n == 9 {
            ControlFunction::Undefined9
        } else if n == 10 {
            ControlFunction::Pan
        } else if n == 11 {
            ControlFunction::ExpressionController
        } else if n == 12 {
            ControlFunction::EffectControl1
        } else if n == 13 {
            ControlFunction::EffectControl2
        } else if n == 14 {
            ControlFunction::Undefined14
        } else if n == 15 {
            ControlFunction::Undefined15
        } else if n == 16 {
            ControlFunction::GeneralPurposeController1
        } else if n == 17 {
            ControlFunction::GeneralPurposeController2
        } else if n == 18 {
            ControlFunction::GeneralPurposeController3
        } else if n == 19 {
            ControlFunction::GeneralPurposeController4
        } else if n == 20 {
            ControlFunction::Undefined20
        } else if n == 21 {
            ControlFunction::Undefined21
        } else if n == 22 {
            ControlFunction::Undefined22
        } else if n == 23 {
            ControlFunction::Undefined23
        } else if n == 24 {
            ControlFunction::Undefined24
        } else if n == 25 {
            ControlFunction::Undefined25
        } else if n == 26 {
            ControlFunction::Undefined26
        } else if n == 27 {
            ControlFunction::Undefined27
        } else if n == 28 {
            ControlFunction::Undefined28
        } else if n == 29 {
            ControlFunction::Undefined29
        } else if n == 30 {
            ControlFunction::Undefined30
        } else if n == 31 {
            ControlFunction::Undefined31
        } else if n == 32 {
            ControlFunction::BankSelectLSB
        } else if n == 33 {
            ControlFunction::ModulationWheelLSB
        } else if n == 34 {
            ControlFunction::BreathControllerLSB
        } else if n == 35 {
            ControlFunction::Undefined3LSB
        } else if n == 36 {
            ControlFunction::FootControllerLSB
        } else if n == 37 {
            ControlFunction::PortamentoTimeLSB
        } else if n == 38 {
            ControlFunction::DataEntryLSB
        } else if n == 39 {
            ControlFunction::ChannelVolumeLSB
        } else if n == 40 {
            ControlFunction::BalanceLSB
        } else if n == 41 {
            ControlFunction::Undefined9LSB
        } else if n == 42 {
            ControlFunction::PanLSB
        } else if n == 43 {
            ControlFunction::ExpressionControllerLSB
        } else if n == 44 {
            ControlFunction::EffectControl1LSB
        } else if n == 45 {
            ControlFunction::EffectControl2LSB
        } else if n == 46 {
            ControlFunction::Undefined14LSB
        } else if n == 47 {
            ControlFunction::Undefined15LSB
        } else if n == 48 {
            ControlFunction::GeneralPurposeController1LSB
        } else if n == 49 {
            ControlFunction::GeneralPurposeController2LSB
        } else if n == 50 {
            ControlFunction::GeneralPurposeController3LSB
        } else if n == 51 {
            ControlFunction::GeneralPurposeController4LSB
        } else if n == 52 {
            ControlFunction::Undefined20LSB
        } else if n == 53 {
            ControlFunction::Undefined21LSB
        } else if n == 54 {
            ControlFunction::Undefined22LSB
        } else if n == 55 {
            ControlFunction::Undefined23LSB
        } else if n == 56 {
            ControlFunction::Undefined24LSB
        } else if n == 57 {
            ControlFunction::Undefined25LSB
        } else if n == 58 {
            ControlFunction::Undefined26LSB
        } else if n == 59 {
            ControlFunction::Undefined27LSB
        } else if n == 60 {
            ControlFunction::Undefined28LSB
        } else if n == 61 {
            ControlFunction::Undefined29LSB
        } else if n == 62 {
            ControlFunction::Undefined30LSB
        } else if n == 63 {
            ControlFunction::Undefined31LSB
        } else if n == 64 {
            ControlFunction::DamperPedal
        } else if n == 65 {
            ControlFunction::PortamentoOnOff
        } else if n == 66 {
            ControlFunction::Sostenuto
        } else if n == 67 {
            ControlFunction::SoftPedal
        } else if n == 68 {
            ControlFunction::LegatoFootswitch
        } else if n == 69 {
            ControlFunction::Hold2
        } else if n == 70 {
            ControlFunction::SoundController1
        } else if n == 71 {
            ControlFunction::SoundController2
        } else if n == 72 {
            ControlFunction::SoundController3
        } else if n == 73 {
            ControlFunction::SoundController4
        } else if n == 74 {
            ControlFunction::SoundController5
        } else if n == 75 {
            ControlFunction::SoundController6
        } else if n == 76 {
            ControlFunction::SoundController7
        } else if n == 77 {
            ControlFunction::SoundController8
        } else if n == 78 {
            ControlFunction::SoundController9
        } else if n == 79 {
            ControlFunction::SoundController10
        } else if n == 80 {
            ControlFunction::GeneralPurposeController5
        } else if n == 81 {
            ControlFunction::GeneralPurposeController6
        } else if n == 82 {
            ControlFunction::GeneralPurposeController7
        } else if n == 83 {
            ControlFunction::GeneralPurposeController8
        } else if n == 84 {
            ControlFunction::PortamentoControl
        } else if n == 85 {
            ControlFunction::Undefined85
        } else if n == 86 {
            ControlFunction::Undefined86
        } else if n == 87 {
            ControlFunction::Undefined87
        } else if n == 88 {
            ControlFunction::Undefined88
        } else if n == 89 {
            ControlFunction::Undefined89
        } else if n == 90 {
            ControlFunction::Undefined90
        } else if n == 91 {
            ControlFunction::Effects1Depth
        } else if n == 92 {
            ControlFunction::Effects2Depth
        } else if n == 93 {
            ControlFunction::Effects3Depth
        } else if n == 94 {
            ControlFunction::Effects4Depth
        } else if n == 95 {
            ControlFunction::Effects5Depth
        } else if n == 96 {
            ControlFunction::DataIncrement
        } else if n == 97 {
            ControlFunction::DataDecrement
        } else if n == 98 {
            ControlFunction::NonRegisteredParameterNumberLSB
        } else if n == 99 {
            ControlFunction::NonRegisteredParameterNumberMSB
        } else if n == 100 {
            ControlFunction::RegisteredParameterNumberLSB
        } else if n == 101 {
            ControlFunction::RegisteredParameterNumberMSB
        } else if n == 102 {
            ControlFunction::Undefined102
        } else if n == 103 {
            ControlFunction::Undefined103
        } else if n == 104 {
            ControlFunction::Undefined104
        } else if n == 105 {
            ControlFunction::Undefined105
        } else if n == 106 {
            ControlFunction::Undefined106
        } else if n == 107 {
            ControlFunction::Undefined107
        } else if n == 108 {
            ControlFunction::Undefined108
        } else if n == 109 {
            ControlFunction::Undefined109
        } else if n == 110 {
            ControlFunction::Undefined110
        } else if n == 111 {
            ControlFunction::Undefined111
        } else if n == 112 {
            ControlFunction::Undefined112
        } else if n == 113 {
            ControlFunction::Undefined113
        } else if n == 114 {
            ControlFunction::Undefined114
        } else if n == 115 {
            ControlFunction::Undefined115
        } else if n == 116 {
            ControlFunction::Undefined116
        } else if n == 117 {
            ControlFunction::Undefined117
        } else if n == 118 {
            ControlFunction::Undefined118
        } else if n == 119 {
            ControlFunction::Undefined119
        } else if n == 120 {
            ControlFunction::AllSoundOff
        } else if n == 121 {
            ControlFunction::ResetAllControllers
        } else if n == 122 {
            ControlFunction::LocalControl
        } else if n == 123 {
            ControlFunction::AllNotesOff
        } else if n == 124 {
            ControlFunction::OmniModeOn
        } else if n == 125 {
            ControlFunction::OmniModeOff
        } else if n == 126 {
            ControlFunction::MonoOperation
        } else {
            ControlFunction::PolyOperation
        }
    }

    /// Returns the assigned number as a constrained 7-bit value, with no
    /// runtime re-validation: every assigned number lies in `0..=127`.
    pub fn encode(self) -> (r: U7)
        ensures
            r == U7::spec_new(control_number(self) as u8),
            r@ == control_number(self),
    {
        let raw: u8 = self.encode_raw();
        proof {
            U7::lemma_spec_new(raw);
        }
        U7::new_unchecked(raw)
    }

    /// Returns the assigned number as a plain unsigned byte, always at
    /// most 127.
    pub fn encode_raw(self) -> (r: u8)
        ensures
            r == control_number(self),
            r <= 127,
    {
        match self {
            ControlFunction::BankSelect => 0,
            ControlFunction::ModulationWheel => 1,
            ControlFunction::BreathController => 2,
            ControlFunction::Undefined3 => 3,
            ControlFunction::FootController => 4,
            ControlFunction::PortamentoTime => 5,
            ControlFunction::DataEntryMSB => 6,
            ControlFunction::ChannelVolume => 7,
            ControlFunction::Balance => 8,
            ControlFunction::Undefined9 => 9,
            ControlFunction::Pan => 10,
            ControlFunction::ExpressionController => 11,
            ControlFunction::EffectControl1 => 12,
            ControlFunction::EffectControl2 => 13,
            ControlFunction::Undefined14 => 14,
            ControlFunction::Undefined15 => 15,
            ControlFunction::GeneralPurposeController1 => 16,
            ControlFunction::GeneralPurposeController2 => 17,
            ControlFunction::GeneralPurposeController3 => 18,
            ControlFunction::GeneralPurposeController4 => 19,
            ControlFunction::Undefined20 => 20,
            ControlFunction::Undefined21 => 21,
            ControlFunction::Undefined22 => 22,
            ControlFunction::Undefined23 => 23,
            ControlFunction::Undefined24 => 24,
            ControlFunction::Undefined25 => 25,
            ControlFunction::Undefined26 => 26,
            ControlFunction::Undefined27 => 27,
            ControlFunction::Undefined28 => 28,
            ControlFunction::Undefined29 => 29,
            ControlFunction::Undefined30 => 30,
            ControlFunction::Undefined31 => 31,
            ControlFunction::BankSelectLSB => 32,
            ControlFunction::ModulationWheelLSB => 33,
            ControlFunction::BreathControllerLSB => 34,
            ControlFunction::Undefined3LSB => 35,
            ControlFunction::FootControllerLSB => 36,
            ControlFunction::PortamentoTimeLSB => 37,
            ControlFunction::DataEntryLSB => 38,
            ControlFunction::ChannelVolumeLSB => 39,
            ControlFunction::BalanceLSB => 40,
            ControlFunction::Undefined9LSB => 41,
            ControlFunction::PanLSB => 42,
            ControlFunction::ExpressionControllerLSB => 43,
            ControlFunction::EffectControl1LSB => 44,
            ControlFunction::EffectControl2LSB => 45,
            ControlFunction::Undefined14LSB => 46,
            ControlFunction::Undefined15LSB => 47,
            ControlFunction::GeneralPurposeController1LSB => 48,
            ControlFunction::GeneralPurposeController2LSB => 49,
            ControlFunction::GeneralPurposeController3LSB => 50,
            ControlFunction::GeneralPurposeController4LSB => 51,
            ControlFunction::Undefined20LSB => 52,
            ControlFunction::Undefined21LSB => 53,
            ControlFunction::Undefined22LSB => 54,
            ControlFunction::Undefined23LSB => 55,
            ControlFunction::Undefined24LSB => 56,
            ControlFunction::Undefined25LSB => 57,
            ControlFunction::Undefined26LSB => 58,
            ControlFunction::Undefined27LSB => 59,
            ControlFunction::Undefined28LSB => 60,
            ControlFunction::Undefined29LSB => 61,
            ControlFunction::Undefined30LSB => 62,
            ControlFunction::Undefined31LSB => 63,
            ControlFunction::DamperPedal => 64,
            ControlFunction::PortamentoOnOff => 65,
            ControlFunction::Sostenuto => 66,
            ControlFunction::SoftPedal => 67,
            ControlFunction::LegatoFootswitch => 68,
            ControlFunction::Hold2 => 69,
            ControlFunction::SoundController1 => 70,
            ControlFunction::SoundController2 => 71,
            ControlFunction::SoundController3 => 72,
            ControlFunction::SoundController4 => 73,
            ControlFunction::SoundController5 => 74,
            ControlFunction::SoundController6 => 75,
            ControlFunction::SoundController7 => 76,
            ControlFunction::SoundController8 => 77,
            ControlFunction::SoundController9 => 78,
            ControlFunction::SoundController10 => 79,
            ControlFunction::GeneralPurposeController5 => 80,
            ControlFunction::GeneralPurposeController6 => 81,
            ControlFunction::GeneralPurposeController7 => 82,
            ControlFunction::GeneralPurposeController8 => 83,
            ControlFunction::PortamentoControl => 84,
            ControlFunction::Undefined85 => 85,
            ControlFunction::Undefined86 => 86,
            ControlFunction::Undefined87 => 87,
            ControlFunction::Undefined88 => 88,
            ControlFunction::Undefined89 => 89,
            ControlFunction::Undefined90 => 90,
            ControlFunction::Effects1Depth => 91,
            ControlFunction::Effects2Depth => 92,
            ControlFunction::Effects3Depth => 93,
            ControlFunction::Effects4Depth => 94,
            ControlFunction::Effects5Depth => 95,
            ControlFunction::DataIncrement => 96,
            ControlFunction::DataDecrement => 97,
            ControlFunction::NonRegisteredParameterNumberLSB => 98,
            ControlFunction::NonRegisteredParameterNumberMSB => 99,
            ControlFunction::RegisteredParameterNumberLSB => 100,
            ControlFunction::RegisteredParameterNumberMSB => 101,
            ControlFunction::Undefined102 => 102,
            ControlFunction::Undefined103 => 103,
            ControlFunction::Undefined104 => 104,
            ControlFunction::Undefined105 => 105,
            ControlFunction::Undefined106 => 106,
            ControlFunction::Undefined107 => 107,
            ControlFunction::Undefined108 => 108,
            ControlFunction::Undefined109 => 109,
            ControlFunction::Undefined110 => 110,
            ControlFunction::Undefined111 => 111,
            ControlFunction::Undefined112 => 112,
            ControlFunction::Undefined113 => 113,
            ControlFunction::Undefined114 => 114,
            ControlFunction::Undefined115 => 115,
            ControlFunction::Undefined116 => 116,
            ControlFunction::Undefined117 => 117,
            ControlFunction::Undefined118 => 118,
            ControlFunction::Undefined119 => 119,
            ControlFunction::AllSoundOff => 120,
            ControlFunction::ResetAllControllers => 121,
            ControlFunction::LocalControl => 122,
            ControlFunction::AllNotesOff => 123,
            ControlFunction::OmniModeOn => 124,
            ControlFunction::OmniModeOff => 125,
            ControlFunction::MonoOperation => 126,
            ControlFunction::PolyOperation => 127,
        }
    }
}

impl From<U7> for ControlFunction {
    /// Decodes; total over every well-formed 7-bit value.
    fn from(data: U7) -> (f: ControlFunction) {
        ControlFunction::decode(data)
    }
}

impl vstd::std_specs::convert::FromSpecImpl<U7> for ControlFunction {
    open spec fn obeys_from_spec() -> bool {
        true
    }

    open spec fn from_spec(data: U7) -> ControlFunction {
        control_of(data@ as int)
    }
}

impl From<ControlFunction> for U7 {
    /// Encodes; the result satisfies the 7-bit invariant by construction.
    fn from(control_function: ControlFunction) -> (r: U7) {
        control_function.encode()
    }
}

impl vstd::std_specs::convert::FromSpecImpl<ControlFunction> for U7 {
    open spec fn obeys_from_spec() -> bool {
        true
    }

    open spec fn from_spec(control_function: ControlFunction) -> U7 {
        U7::spec_new(control_number(control_function) as u8)
    }
}

impl From<ControlFunction> for u8 {
    /// Encodes to a plain byte, for interop with code that does not use the
    /// constrained type; the value is still at most 127.
    fn from(control_function: ControlFunction) -> (r: u8) {
        control_function.encode_raw()
    }
}

impl vstd::std_specs::convert::FromSpecImpl<ControlFunction> for u8 {
    open spec fn obeys_from_spec() -> bool {
        true
    }

    open spec fn from_spec(control_function: ControlFunction) -> u8 {
        control_number(control_function) as u8
    }
}

/// Bijection, wire side: every controller number in `0..128` is the number
/// assigned to the variant it decodes to, so encoding a decoded value gives
/// the value back.
pub proof fn lemma_number_round_trip(n: int)
    requires
        0 <= n < 128,
    ensures
        control_number(control_of(n)) == n,
{
}

/// Bijection, value side: a well-formed 7-bit value, decoded and encoded
/// again, comes back unchanged.
pub proof fn lemma_u7_round_trip(v: U7)
    requires
        v@ < 128,
    ensures
        U7::spec_new(control_number(control_of(v@ as int)) as u8) == v,
{
    lemma_number_round_trip(v@ as int);
    v.lemma_canonical();
}

/// Inverse consistency: every variant decodes back from its own assigned
/// number, so decoding an encoded variant gives the variant back.
pub proof fn lemma_variant_round_trip(f: ControlFunction)
    ensures
        control_of(control_number(f)) == f,
{
}

/// Range preservation: every assigned number lies in `0..=127`.
pub proof fn lemma_number_in_range(f: ControlFunction)
    ensures
        0 <= control_number(f) <= 127,
{
}

/// Distinctness: no two distinct variants share an assigned number.
pub proof fn lemma_number_injective(f: ControlFunction, g: ControlFunction)
    requires
        control_number(f) == control_number(g),
    ensures
        f == g,
{
    lemma_variant_round_trip(f);
    lemma_variant_round_trip(g);
}

} // verus!
