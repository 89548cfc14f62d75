//! The one-byte member of the family: every value of `u8` but `u8::MAX`.

use std::cmp::Ordering;
use vstd::prelude::*;
use vstd::std_specs::cmp::{PartialEqSpec, PartialOrdSpec};
use vstd::std_specs::convert::TryFromSpec;

use crate::nonmax::RangeError;

verus! {

/// `u8` with a niche for its maximum value.
///
/// The type has one variant for each legal value and none for 255, so an
/// illegal value cannot be built, and `Option<NonMaxU8>` needs no byte of
/// its own for `None`.
#[derive(Clone, Copy, Debug, Eq, Ord)]
pub enum NonMaxU8 {
    _0,
    _1,
    _2,
    _3,
    _4,
    _5,
    _6,
    _7,
    _8,
    _9,
    _10,
    _11,
    _12,
    _13,
    _14,
    _15,
    _16,
    _17,
    _18,
    _19,
    _20,
    _21,
    _22,
    _23,
    _24,
    _25,
    _26,
    _27,
    _28,
    _29,
    _30,
    _31,
    _32,
    _33,
    _34,
    _35,
    _36,
    _37,
    _38,
    _39,
    _40,
    _41,
    _42,
    _43,
    _44,
    _45,
    _46,
    _47,
    _48,
    _49,
    _50,
    _51,
    _52,
    _53,
    _54,
    _55,
    _56,
    _57,
    _58,
    _59,
    _60,
    _61,
    _62,
    _63,
    _64,
    _65,
    _66,
    _67,
    _68,
    _69,
    _70,
    _71,
    _72,
    _73,
    _74,
    _75,
    _76,
    _77,
    _78,
    _79,
    _80,
    _81,
    _82,
    _83,
    _84,
    _85,
    _86,
    _87,
    _88,
    _89,
    _90,
    _91,
    _92,
    _93,
    _94,
    _95,
    _96,
    _97,
    _98,
    _99,
    _100,
    _101,
    _102,
    _103,
    _104,
    _105,
    _106,
    _107,
    _108,
    _109,
    _110,
    _111,
    _112,
    _113,
    _114,
    _115,
    _116,
    _117,
    _118,
    _119,
    _120,
    _121,
    _122,
    _123,
    _124,
    _125,
    _126,
    _127,
    _128,
    _129,
    _130,
    _131,
    _132,
    _133,
    _134,
    _135,
    _136,
    _137,
    _138,
    _139,
    _140,
    _141,
    _142,
    _143,
    _144,
    _145,
    _146,
    _147,
    _148,
    _149,
    _150,
    _151,
    _152,
    _153,
    _154,
    _155,
    _156,
    _157,
    _158,
    _159,
    _160,
    _161,
    _162,
    _163,
    _164,
    _165,
    _166,
    _167,
    _168,
    _169,
    _170,
    _171,
    _172,
    _173,
    _174,
    _175,
    _176,
    _177,
    _178,
    _179,
    _180,
    _181,
    _182,
    _183,
    _184,
    _185,
    _186,
    _187,
    _188,
    _189,
    _190,
    _191,
    _192,
    _193,
    _194,
    _195,
    _196,
    _197,
    _198,
    _199,
    _200,
    _201,
    _202,
    _203,
    _204,
    _205,
    _206,
    _207,
    _208,
    _209,
    _210,
    _211,
    _212,
    _213,
    _214,
    _215,
    _216,
    _217,
    _218,
    _219,
    _220,
    _221,
    _222,
    _223,
    _224,
    _225,
    _226,
    _227,
    _228,
    _229,
    _230,
    _231,
    _232,
    _233,
    _234,
    _235,
    _236,
    _237,
    _238,
    _239,
    _240,
    _241,
    _242,
    _243,
    _244,
    _245,
    _246,
    _247,
    _248,
    _249,
    _250,
    _251,
    _252,
    _253,
    _254,
}

impl View for NonMaxU8 {
    type V = nat;

    /// The number that the variant stands for.
    closed spec fn view(&self) -> nat {
        match *self {
            NonMaxU8::_0 => 0,
            NonMaxU8::_1 => 1,
            NonMaxU8::_2 => 2,
            NonMaxU8::_3 => 3,
            NonMaxU8::_4 => 4,
            NonMaxU8::_5 => 5,
            NonMaxU8::_6 => 6,
            NonMaxU8::_7 => 7,
            NonMaxU8::_8 => 8,
            NonMaxU8::_9 => 9,
            NonMaxU8::_10 => 10,
            NonMaxU8::_11 => 11,
            NonMaxU8::_12 => 12,
            NonMaxU8::_13 => 13,
            NonMaxU8::_14 => 14,
            NonMaxU8::_15 => 15,
            NonMaxU8::_16 => 16,
            NonMaxU8::_17 => 17,
            NonMaxU8::_18 => 18,
            NonMaxU8::_19 => 19,
            NonMaxU8::_20 => 20,
            NonMaxU8::_21 => 21,
            NonMaxU8::_22 => 22,
            NonMaxU8::_23 => 23,
            NonMaxU8::_24 => 24,
            NonMaxU8::_25 => 25,
            NonMaxU8::_26 => 26,
            NonMaxU8::_27 => 27,
            NonMaxU8::_28 => 28,
            NonMaxU8::_29 => 29,
            NonMaxU8::_30 => 30,
            NonMaxU8::_31 => 31,
            NonMaxU8::_32 => 32,
            NonMaxU8::_33 => 33,
            NonMaxU8::_34 => 34,
            NonMaxU8::_35 => 35,
            NonMaxU8::_36 => 36,
            NonMaxU8::_37 => 37,
            NonMaxU8::_38 => 38,
            NonMaxU8::_39 => 39,
            NonMaxU8::_40 => 40,
            NonMaxU8::_41 => 41,
            NonMaxU8::_42 => 42,
            NonMaxU8::_43 => 43,
            NonMaxU8::_44 => 44,
            NonMaxU8::_45 => 45,
            NonMaxU8::_46 => 46,
            NonMaxU8::_47 => 47,
            NonMaxU8::_48 => 48,
            NonMaxU8::_49 => 49,
            NonMaxU8::_50 => 50,
            NonMaxU8::_51 => 51,
            NonMaxU8::_52 => 52,
            NonMaxU8::_53 => 53,
            NonMaxU8::_54 => 54,
            NonMaxU8::_55 => 55,
            NonMaxU8::_56 => 56,
            NonMaxU8::_57 => 57,
            NonMaxU8::_58 => 58,
            NonMaxU8::_59 => 59,
            NonMaxU8::_60 => 60,
            NonMaxU8::_61 => 61,
            NonMaxU8::_62 => 62,
            NonMaxU8::_63 => 63,
            NonMaxU8::_64 => 64,
            NonMaxU8::_65 => 65,
            NonMaxU8::_66 => 66,
            NonMaxU8::_67 => 67,
            NonMaxU8::_68 => 68,
            NonMaxU8::_69 => 69,
            NonMaxU8::_70 => 70,
            NonMaxU8::_71 => 71,
            NonMaxU8::_72 => 72,
            NonMaxU8::_73 => 73,
            NonMaxU8::_74 => 74,
            NonMaxU8::_75 => 75,
            NonMaxU8::_76 => 76,
            NonMaxU8::_77 => 77,
            NonMaxU8::_78 => 78,
            NonMaxU8::_79 => 79,
            NonMaxU8::_80 => 80,
            NonMaxU8::_81 => 81,
            NonMaxU8::_82 => 82,
            NonMaxU8::_83 => 83,
            NonMaxU8::_84 => 84,
            NonMaxU8::_85 => 85,
            NonMaxU8::_86 => 86,
            NonMaxU8::_87 => 87,
            NonMaxU8::_88 => 88,
            NonMaxU8::_89 => 89,
            NonMaxU8::_90 => 90,
            NonMaxU8::_91 => 91,
            NonMaxU8::_92 => 92,
            NonMaxU8::_93 => 93,
            NonMaxU8::_94 => 94,
            NonMaxU8::_95 => 95,
            NonMaxU8::_96 => 96,
            NonMaxU8::_97 => 97,
            NonMaxU8::_98 => 98,
            NonMaxU8::_99 => 99,
            NonMaxU8::_100 => 100,
            NonMaxU8::_101 => 101,
            NonMaxU8::_102 => 102,
            NonMaxU8::_103 => 103,
            NonMaxU8::_104 => 104,
            NonMaxU8::_105 => 105,
            NonMaxU8::_106 => 106,
            NonMaxU8::_107 => 107,
            NonMaxU8::_108 => 108,
            NonMaxU8::_109 => 109,
            NonMaxU8::_110 => 110,
            NonMaxU8::_111 => 111,
            NonMaxU8::_112 => 112,
            NonMaxU8::_113 => 113,
            NonMaxU8::_114 => 114,
            NonMaxU8::_115 => 115,
            NonMaxU8::_116 => 116,
            NonMaxU8::_117 => 117,
            NonMaxU8::_118 => 118,
            NonMaxU8::_119 => 119,
            NonMaxU8::_120 => 120,
            NonMaxU8::_121 => 121,
            NonMaxU8::_122 => 122,
            NonMaxU8::_123 => 123,
            NonMaxU8::_124 => 124,
            NonMaxU8::_125 => 125,
            NonMaxU8::_126 => 126,
            NonMaxU8::_127 => 127,
            NonMaxU8::_128 => 128,
            NonMaxU8::_129 => 129,
            NonMaxU8::_130 => 130,
            NonMaxU8::_131 => 131,
            NonMaxU8::_132 => 132,
            NonMaxU8::_133 => 133,
            NonMaxU8::_134 => 134,
            NonMaxU8::_135 => 135,
            NonMaxU8::_136 => 136,
            NonMaxU8::_137 => 137,
            NonMaxU8::_138 => 138,
            NonMaxU8::_139 => 139,
            NonMaxU8::_140 => 140,
            NonMaxU8::_141 => 141,
            NonMaxU8::_142 => 142,
            NonMaxU8::_143 => 143,
            NonMaxU8::_144 => 144,
            NonMaxU8::_145 => 145,
            NonMaxU8::_146 => 146,
            NonMaxU8::_147 => 147,
            NonMaxU8::_148 => 148,
            NonMaxU8::_149 => 149,
            NonMaxU8::_150 => 150,
            NonMaxU8::_151 => 151,
            NonMaxU8::_152 => 152,
            NonMaxU8::_153 => 153,
            NonMaxU8::_154 => 154,
            NonMaxU8::_155 => 155,
            NonMaxU8::_156 => 156,
            NonMaxU8::_157 => 157,
            NonMaxU8::_158 => 158,
            NonMaxU8::_159 => 159,
            NonMaxU8::_160 => 160,
            NonMaxU8::_161 => 161,
            NonMaxU8::_162 => 162,
            NonMaxU8::_163 => 163,
            NonMaxU8::_164 => 164,
            NonMaxU8::_165 => 165,
            NonMaxU8::_166 => 166,
            NonMaxU8::_167 => 167,
            NonMaxU8::_168 => 168,
            NonMaxU8::_169 => 169,
            NonMaxU8::_170 => 170,
            NonMaxU8::_171 => 171,
            NonMaxU8::_172 => 172,
            NonMaxU8::_173 => 173,
            NonMaxU8::_174 => 174,
            NonMaxU8::_175 => 175,
            NonMaxU8::_176 => 176,
            NonMaxU8::_177 => 177,
            NonMaxU8::_178 => 178,
            NonMaxU8::_179 => 179,
            NonMaxU8::_180 => 180,
            NonMaxU8::_181 => 181,
            NonMaxU8::_182 => 182,
            NonMaxU8::_183 => 183,
            NonMaxU8::_184 => 184,
            NonMaxU8::_185 => 185,
            NonMaxU8::_186 => 186,
            NonMaxU8::_187 => 187,
            NonMaxU8::_188 => 188,
            NonMaxU8::_189 => 189,
            NonMaxU8::_190 => 190,
            NonMaxU8::_191 => 191,
            NonMaxU8::_192 => 192,
            NonMaxU8::_193 => 193,
            NonMaxU8::_194 => 194,
            NonMaxU8::_195 => 195,
            NonMaxU8::_196 => 196,
            NonMaxU8::_197 => 197,
            NonMaxU8::_198 => 198,
            NonMaxU8::_199 => 199,
            NonMaxU8::_200 => 200,
            NonMaxU8::_201 => 201,
            NonMaxU8::_202 => 202,
            NonMaxU8::_203 => 203,
            NonMaxU8::_204 => 204,
            NonMaxU8::_205 => 205,
            NonMaxU8::_206 => 206,
            NonMaxU8::_207 => 207,
            NonMaxU8::_208 => 208,
            NonMaxU8::_209 => 209,
            NonMaxU8::_210 => 210,
            NonMaxU8::_211 => 211,
            NonMaxU8::_212 => 212,
            NonMaxU8::_213 => 213,
            NonMaxU8::_214 => 214,
            NonMaxU8::_215 => 215,
            NonMaxU8::_216 => 216,
            NonMaxU8::_217 => 217,
            NonMaxU8::_218 => 218,
            NonMaxU8::_219 => 219,
            NonMaxU8::_220 => 220,
            NonMaxU8::_221 => 221,
            NonMaxU8::_222 => 222,
            NonMaxU8::_223 => 223,
            NonMaxU8::_224 => 224,
            NonMaxU8::_225 => 225,
            NonMaxU8::_226 => 226,
            NonMaxU8::_227 => 227,
            NonMaxU8::_228 => 228,
            NonMaxU8::_229 => 229,
            NonMaxU8::_230 => 230,
            NonMaxU8::_231 => 231,
            NonMaxU8::_232 => 232,
            NonMaxU8::_233 => 233,
            NonMaxU8::_234 => 234,
            NonMaxU8::_235 => 235,
            NonMaxU8::_236 => 236,
            NonMaxU8::_237 => 237,
            NonMaxU8::_238 => 238,
            NonMaxU8::_239 => 239,
            NonMaxU8::_240 => 240,
            NonMaxU8::_241 => 241,
            NonMaxU8::_242 => 242,
            NonMaxU8::_243 => 243,
            NonMaxU8::_244 => 244,
            NonMaxU8::_245 => 245,
            NonMaxU8::_246 => 246,
            NonMaxU8::_247 => 247,
            NonMaxU8::_248 => 248,
            NonMaxU8::_249 => 249,
            NonMaxU8::_250 => 250,
            NonMaxU8::_251 => 251,
            NonMaxU8::_252 => 252,
            NonMaxU8::_253 => 253,
            NonMaxU8::_254 => 254,
        }
    }
}

impl NonMaxU8 {
    /// The value that stands for `n`, for `n` up to `MAX`.
    pub closed spec fn from_value(n: u8) -> Self {
        match n {
            0 => NonMaxU8::_0,
            1 => NonMaxU8::_1,
            2 => NonMaxU8::_2,
            3 => NonMaxU8::_3,
            4 => NonMaxU8::_4,
            5 => NonMaxU8::_5,
            6 => NonMaxU8::_6,
            7 => NonMaxU8::_7,
            8 => NonMaxU8::_8,
            9 => NonMaxU8::_9,
            10 => NonMaxU8::_10,
            11 => NonMaxU8::_11,
            12 => NonMaxU8::_12,
            13 => NonMaxU8::_13,
            14 => NonMaxU8::_14,
            15 => NonMaxU8::_15,
            16 => NonMaxU8::_16,
            17 => NonMaxU8::_17,
            18 => NonMaxU8::_18,
            19 => NonMaxU8::_19,
            20 => NonMaxU8::_20,
            21 => NonMaxU8::_21,
            22 => NonMaxU8::_22,
            23 => NonMaxU8::_23,
            24 => NonMaxU8::_24,
            25 => NonMaxU8::_25,
            26 => NonMaxU8::_26,
            27 => NonMaxU8::_27,
            28 => NonMaxU8::_28,
            29 => NonMaxU8::_29,
            30 => NonMaxU8::_30,
            31 => NonMaxU8::_31,
            32 => NonMaxU8::_32,
            33 => NonMaxU8::_33,
            34 => NonMaxU8::_34,
            35 => NonMaxU8::_35,
            36 => NonMaxU8::_36,
            37 => NonMaxU8::_37,
            38 => NonMaxU8::_38,
            39 => NonMaxU8::_39,
            40 => NonMaxU8::_40,
            41 => NonMaxU8::_41,
            42 => NonMaxU8::_42,
            43 => NonMaxU8::_43,
            44 => NonMaxU8::_44,
            45 => NonMaxU8::_45,
            46 => NonMaxU8::_46,
            47 => NonMaxU8::_47,
            48 => NonMaxU8::_48,
            49 => NonMaxU8::_49,
            50 => NonMaxU8::_50,
            51 => NonMaxU8::_51,
            52 => NonMaxU8::_52,
            53 => NonMaxU8::_53,
            54 => NonMaxU8::_54,
            55 => NonMaxU8::_55,
            56 => NonMaxU8::_56,
            57 => NonMaxU8::_57,
            58 => NonMaxU8::_58,
            59 => NonMaxU8::_59,
            60 => NonMaxU8::_60,
            61 => NonMaxU8::_61,
            62 => NonMaxU8::_62,
            63 => NonMaxU8::_63,
            64 => NonMaxU8::_64,
            65 => NonMaxU8::_65,
            66 => NonMaxU8::_66,
            67 => NonMaxU8::_67,
            68 => NonMaxU8::_68,
            69 => NonMaxU8::_69,
            70 => NonMaxU8::_70,
            71 => NonMaxU8::_71,
            72 => NonMaxU8::_72,
            73 => NonMaxU8::_73,
            74 => NonMaxU8::_74,
            75 => NonMaxU8::_75,
            76 => NonMaxU8::_76,
            77 => NonMaxU8::_77,
            78 => NonMaxU8::_78,
            79 => NonMaxU8::_79,
            80 => NonMaxU8::_80,
            81 => NonMaxU8::_81,
            82 => NonMaxU8::_82,
            83 => NonMaxU8::_83,
            84 => NonMaxU8::_84,
            85 => NonMaxU8::_85,
            86 => NonMaxU8::_86,
            87 => NonMaxU8::_87,
            88 => NonMaxU8::_88,
            89 => NonMaxU8::_89,
            90 => NonMaxU8::_90,
            91 => NonMaxU8::_91,
            92 => NonMaxU8::_92,
            93 => NonMaxU8::_93,
            94 => NonMaxU8::_94,
            95 => NonMaxU8::_95,
            96 => NonMaxU8::_96,
            97 => NonMaxU8::_97,
            98 => NonMaxU8::_98,
            99 => NonMaxU8::_99,
            100 => NonMaxU8::_100,
            101 => NonMaxU8::_101,
            102 => NonMaxU8::_102,
            103 => NonMaxU8::_103,
            104 => NonMaxU8::_104,
            105 => NonMaxU8::_105,
            106 => NonMaxU8::_106,
            107 => NonMaxU8::_107,
            108 => NonMaxU8::_108,
            109 => NonMaxU8::_109,
            110 => NonMaxU8::_110,
            111 => NonMaxU8::_111,
            112 => NonMaxU8::_112,
            113 => NonMaxU8::_113,
            114 => NonMaxU8::_114,
            115 => NonMaxU8::_115,
            116 => NonMaxU8::_116,
            117 => NonMaxU8::_117,
            118 => NonMaxU8::_118,
            119 => NonMaxU8::_119,
            120 => NonMaxU8::_120,
            121 => NonMaxU8::_121,
            122 => NonMaxU8::_122,
            123 => NonMaxU8::_123,
            124 => NonMaxU8::_124,
            125 => NonMaxU8::_125,
            126 => NonMaxU8::_126,
            127 => NonMaxU8::_127,
            128 => NonMaxU8::_128,
            129 => NonMaxU8::_129,
            130 => NonMaxU8::_130,
            131 => NonMaxU8::_131,
            132 => NonMaxU8::_132,
            133 => NonMaxU8::_133,
            134 => NonMaxU8::_134,
            135 => NonMaxU8::_135,
            136 => NonMaxU8::_136,
            137 => NonMaxU8::_137,
            138 => NonMaxU8::_138,
            139 => NonMaxU8::_139,
            140 => NonMaxU8::_140,
            141 => NonMaxU8::_141,
            142 => NonMaxU8::_142,
            143 => NonMaxU8::_143,
            144 => NonMaxU8::_144,
            145 => NonMaxU8::_145,
            146 => NonMaxU8::_146,
            147 => NonMaxU8::_147,
            148 => NonMaxU8::_148,
            149 => NonMaxU8::_149,
            150 => NonMaxU8::_150,
            151 => NonMaxU8::_151,
            152 => NonMaxU8::_152,
            153 => NonMaxU8::_153,
            154 => NonMaxU8::_154,
            155 => NonMaxU8::_155,
            156 => NonMaxU8::_156,
            157 => NonMaxU8::_157,
            158 => NonMaxU8::_158,
            159 => NonMaxU8::_159,
            160 => NonMaxU8::_160,
            161 => NonMaxU8::_161,
            162 => NonMaxU8::_162,
            163 => NonMaxU8::_163,
            164 => NonMaxU8::_164,
            165 => NonMaxU8::_165,
            166 => NonMaxU8::_166,
            167 => NonMaxU8::_167,
            168 => NonMaxU8::_168,
            169 => NonMaxU8::_169,
            170 => NonMaxU8::_170,
            171 => NonMaxU8::_171,
            172 => NonMaxU8::_172,
            173 => NonMaxU8::_173,
            174 => NonMaxU8::_174,
            175 => NonMaxU8::_175,
            176 => NonMaxU8::_176,
            177 => NonMaxU8::_177,
            178 => NonMaxU8::_178,
            179 => NonMaxU8::_179,
            180 => NonMaxU8::_180,
            181 => NonMaxU8::_181,
            182 => NonMaxU8::_182,
            183 => NonMaxU8::_183,
            184 => NonMaxU8::_184,
            185 => NonMaxU8::_185,
            186 => NonMaxU8::_186,
            187 => NonMaxU8::_187,
            188 => NonMaxU8::_188,
            189 => NonMaxU8::_189,
            190 => NonMaxU8::_190,
            191 => NonMaxU8::_191,
            192 => NonMaxU8::_192,
            193 => NonMaxU8::_193,
            194 => NonMaxU8::_194,
            195 => NonMaxU8::_195,
            196 => NonMaxU8::_196,
            197 => NonMaxU8::_197,
            198 => NonMaxU8::_198,
            199 => NonMaxU8::_199,
            200 => NonMaxU8::_200,
            201 => NonMaxU8::_201,
            202 => NonMaxU8::_202,
            203 => NonMaxU8::_203,
            204 => NonMaxU8::_204,
            205 => NonMaxU8::_205,
            206 => NonMaxU8::_206,
            207 => NonMaxU8::_207,
            208 => NonMaxU8::_208,
            209 => NonMaxU8::_209,
            210 => NonMaxU8::_210,
            211 => NonMaxU8::_211,
            212 => NonMaxU8::_212,
            213 => NonMaxU8::_213,
            214 => NonMaxU8::_214,
            215 => NonMaxU8::_215,
            216 => NonMaxU8::_216,
            217 => NonMaxU8::_217,
            218 => NonMaxU8::_218,
            219 => NonMaxU8::_219,
            220 => NonMaxU8::_220,
            221 => NonMaxU8::_221,
            222 => NonMaxU8::_222,
            223 => NonMaxU8::_223,
            224 => NonMaxU8::_224,
            225 => NonMaxU8::_225,
            226 => NonMaxU8::_226,
            227 => NonMaxU8::_227,
            228 => NonMaxU8::_228,
            229 => NonMaxU8::_229,
            230 => NonMaxU8::_230,
            231 => NonMaxU8::_231,
            232 => NonMaxU8::_232,
            233 => NonMaxU8::_233,
            234 => NonMaxU8::_234,
            235 => NonMaxU8::_235,
            236 => NonMaxU8::_236,
            237 => NonMaxU8::_237,
            238 => NonMaxU8::_238,
            239 => NonMaxU8::_239,
            240 => NonMaxU8::_240,
            241 => NonMaxU8::_241,
            242 => NonMaxU8::_242,
            243 => NonMaxU8::_243,
            244 => NonMaxU8::_244,
            245 => NonMaxU8::_245,
            246 => NonMaxU8::_246,
            247 => NonMaxU8::_247,
            248 => NonMaxU8::_248,
            249 => NonMaxU8::_249,
            250 => NonMaxU8::_250,
            251 => NonMaxU8::_251,
            252 => NonMaxU8::_252,
            253 => NonMaxU8::_253,
            _ => NonMaxU8::_254,
        }
    }

    /// Maximum value representable by this type.
    pub const MAX: u8 = 254;

    /// Create a `NonMaxU8` from a `u8` that the caller knows to be legal.
    #[verifier::rlimit(100)]
    pub fn new_unchecked(n: u8) -> (r: Self)
        requires
            n <= Self::MAX,
        ensures
            r@ == n,
            r == Self::from_value(n),
    {
        match n {
            0 => NonMaxU8::_0,
            1 => NonMaxU8::_1,
            2 => NonMaxU8::_2,
            3 => NonMaxU8::_3,
            4 => NonMaxU8::_4,
            5 => NonMaxU8::_5,
            6 => NonMaxU8::_6,
            7 => NonMaxU8::_7,
            8 => NonMaxU8::_8,
            9 => NonMaxU8::_9,
            10 => NonMaxU8::_10,
            11 => NonMaxU8::_11,
            12 => NonMaxU8::_12,
            13 => NonMaxU8::_13,
            14 => NonMaxU8::_14,
            15 => NonMaxU8::_15,
            16 => NonMaxU8::_16,
            17 => NonMaxU8::_17,
            18 => NonMaxU8::_18,
            19 => NonMaxU8::_19,
            20 => NonMaxU8::_20,
            21 => NonMaxU8::_21,
            22 => NonMaxU8::_22,
            23 => NonMaxU8::_23,
            24 => NonMaxU8::_24,
            25 => NonMaxU8::_25,
            26 => NonMaxU8::_26,
            27 => NonMaxU8::_27,
            28 => NonMaxU8::_28,
            29 => NonMaxU8::_29,
            30 => NonMaxU8::_30,
            31 => NonMaxU8::_31,
            32 => NonMaxU8::_32,
            33 => NonMaxU8::_33,
            34 => NonMaxU8::_34,
            35 => NonMaxU8::_35,
            36 => NonMaxU8::_36,
            37 => NonMaxU8::_37,
            38 => NonMaxU8::_38,
            39 => NonMaxU8::_39,
            40 => NonMaxU8::_40,
            41 => NonMaxU8::_41,
            42 => NonMaxU8::_42,
            43 => NonMaxU8::_43,
            44 => NonMaxU8::_44,
            45 => NonMaxU8::_45,
            46 => NonMaxU8::_46,
            47 => NonMaxU8::_47,
            48 => NonMaxU8::_48,
            49 => NonMaxU8::_49,
            50 => NonMaxU8::_50,
            51 => NonMaxU8::_51,
            52 => NonMaxU8::_52,
            53 => NonMaxU8::_53,
            54 => NonMaxU8::_54,
            55 => NonMaxU8::_55,
            56 => NonMaxU8::_56,
            57 => NonMaxU8::_57,
            58 => NonMaxU8::_58,
            59 => NonMaxU8::_59,
            60 => NonMaxU8::_60,
            61 => NonMaxU8::_61,
            62 => NonMaxU8::_62,
            63 => NonMaxU8::_63,
            64 => NonMaxU8::_64,
            65 => NonMaxU8::_65,
            66 => NonMaxU8::_66,
            67 => NonMaxU8::_67,
            68 => NonMaxU8::_68,
            69 => NonMaxU8::_69,
            70 => NonMaxU8::_70,
            71 => NonMaxU8::_71,
            72 => NonMaxU8::_72,
            73 => NonMaxU8::_73,
            74 => NonMaxU8::_74,
            75 => NonMaxU8::_75,
            76 => NonMaxU8::_76,
            77 => NonMaxU8::_77,
            78 => NonMaxU8::_78,
            79 => NonMaxU8::_79,
            80 => NonMaxU8::_80,
            81 => NonMaxU8::_81,
            82 => NonMaxU8::_82,
            83 => NonMaxU8::_83,
            84 => NonMaxU8::_84,
            85 => NonMaxU8::_85,
            86 => NonMaxU8::_86,
            87 => NonMaxU8::_87,
            88 => NonMaxU8::_88,
            89 => NonMaxU8::_89,
            90 => NonMaxU8::_90,
            91 => NonMaxU8::_91,
            92 => NonMaxU8::_92,
            93 => NonMaxU8::_93,
            94 => NonMaxU8::_94,
            95 => NonMaxU8::_95,
            96 => NonMaxU8::_96,
            97 => NonMaxU8::_97,
            98 => NonMaxU8::_98,
            99 => NonMaxU8::_99,
            100 => NonMaxU8::_100,
            101 => NonMaxU8::_101,
            102 => NonMaxU8::_102,
            103 => NonMaxU8::_103,
            104 => NonMaxU8::_104,
            105 => NonMaxU8::_105,
            106 => NonMaxU8::_106,
            107 => NonMaxU8::_107,
            108 => NonMaxU8::_108,
            109 => NonMaxU8::_109,
            110 => NonMaxU8::_110,
            111 => NonMaxU8::_111,
            112 => NonMaxU8::_112,
            113 => NonMaxU8::_113,
            114 => NonMaxU8::_114,
            115 => NonMaxU8::_115,
            116 => NonMaxU8::_116,
            117 => NonMaxU8::_117,
            118 => NonMaxU8::_118,
            119 => NonMaxU8::_119,
            120 => NonMaxU8::_120,
            121 => NonMaxU8::_121,
            122 => NonMaxU8::_122,
            123 => NonMaxU8::_123,
            124 => NonMaxU8::_124,
            125 => NonMaxU8::_125,
            126 => NonMaxU8::_126,
            127 => NonMaxU8::_127,
            128 => NonMaxU8::_128,
            129 => NonMaxU8::_129,
            130 => NonMaxU8::_130,
            131 => NonMaxU8::_131,
            132 => NonMaxU8::_132,
            133 => NonMaxU8::_133,
            134 => NonMaxU8::_134,
            135 => NonMaxU8::_135,
            136 => NonMaxU8::_136,
            137 => NonMaxU8::_137,
            138 => NonMaxU8::_138,
            139 => NonMaxU8::_139,
            140 => NonMaxU8::_140,
            141 => NonMaxU8::_141,
            142 => NonMaxU8::_142,
            143 => NonMaxU8::_143,
            144 => NonMaxU8::_144,
            145 => NonMaxU8::_145,
            146 => NonMaxU8::_146,
            147 => NonMaxU8::_147,
            148 => NonMaxU8::_148,
            149 => NonMaxU8::_149,
            150 => NonMaxU8::_150,
            151 => NonMaxU8::_151,
            152 => NonMaxU8::_152,
            153 => NonMaxU8::_153,
            154 => NonMaxU8::_154,
            155 => NonMaxU8::_155,
            156 => NonMaxU8::_156,
            157 => NonMaxU8::_157,
            158 => NonMaxU8::_158,
            159 => NonMaxU8::_159,
            160 => NonMaxU8::_160,
            161 => NonMaxU8::_161,
            162 => NonMaxU8::_162,
            163 => NonMaxU8::_163,
            164 => NonMaxU8::_164,
            165 => NonMaxU8::_165,
            166 => NonMaxU8::_166,
            167 => NonMaxU8::_167,
            168 => NonMaxU8::_168,
            169 => NonMaxU8::_169,
            170 => NonMaxU8::_170,
            171 => NonMaxU8::_171,
            172 => NonMaxU8::_172,
            173 => NonMaxU8::_173,
            174 => NonMaxU8::_174,
            175 => NonMaxU8::_175,
            176 => NonMaxU8::_176,
            177 => NonMaxU8::_177,
            178 => NonMaxU8::_178,
            179 => NonMaxU8::_179,
            180 => NonMaxU8::_180,
            181 => NonMaxU8::_181,
            182 => NonMaxU8::_182,
            183 => NonMaxU8::_183,
            184 => NonMaxU8::_184,
            185 => NonMaxU8::_185,
            186 => NonMaxU8::_186,
            187 => NonMaxU8::_187,
            188 => NonMaxU8::_188,
            189 => NonMaxU8::_189,
            190 => NonMaxU8::_190,
            191 => NonMaxU8::_191,
            192 => NonMaxU8::_192,
            193 => NonMaxU8::_193,
            194 => NonMaxU8::_194,
            195 => NonMaxU8::_195,
            196 => NonMaxU8::_196,
            197 => NonMaxU8::_197,
            198 => NonMaxU8::_198,
            199 => NonMaxU8::_199,
            200 => NonMaxU8::_200,
            201 => NonMaxU8::_201,
            202 => NonMaxU8::_202,
            203 => NonMaxU8::_203,
            204 => NonMaxU8::_204,
            205 => NonMaxU8::_205,
            206 => NonMaxU8::_206,
            207 => NonMaxU8::_207,
            208 => NonMaxU8::_208,
            209 => NonMaxU8::_209,
            210 => NonMaxU8::_210,
            211 => NonMaxU8::_211,
            212 => NonMaxU8::_212,
            213 => NonMaxU8::_213,
            214 => NonMaxU8::_214,
            215 => NonMaxU8::_215,
            216 => NonMaxU8::_216,
            217 => NonMaxU8::_217,
            218 => NonMaxU8::_218,
            219 => NonMaxU8::_219,
            220 => NonMaxU8::_220,
            221 => NonMaxU8::_221,
            222 => NonMaxU8::_222,
            223 => NonMaxU8::_223,
            224 => NonMaxU8::_224,
            225 => NonMaxU8::_225,
            226 => NonMaxU8::_226,
            227 => NonMaxU8::_227,
            228 => NonMaxU8::_228,
            229 => NonMaxU8::_229,
            230 => NonMaxU8::_230,
            231 => NonMaxU8::_231,
            232 => NonMaxU8::_232,
            233 => NonMaxU8::_233,
            234 => NonMaxU8::_234,
            235 => NonMaxU8::_235,
            236 => NonMaxU8::_236,
            237 => NonMaxU8::_237,
            238 => NonMaxU8::_238,
            239 => NonMaxU8::_239,
            240 => NonMaxU8::_240,
            241 => NonMaxU8::_241,
            242 => NonMaxU8::_242,
            243 => NonMaxU8::_243,
            244 => NonMaxU8::_244,
            245 => NonMaxU8::_245,
            246 => NonMaxU8::_246,
            247 => NonMaxU8::_247,
            248 => NonMaxU8::_248,
            249 => NonMaxU8::_249,
            250 => NonMaxU8::_250,
            251 => NonMaxU8::_251,
            252 => NonMaxU8::_252,
            253 => NonMaxU8::_253,
            254 => NonMaxU8::_254,
            _ => vstd::pervasive::unreached(),
        }
    }

    /// Create a `NonMaxU8` from a `u8`.
    ///
    /// Stops the program if `n` is greater than `MAX`; verified callers
    /// show that it is not.
    pub fn new(n: u8) -> (r: Self)
        requires
            n <= Self::MAX,
        ensures
            r@ == n,
            r == Self::from_value(n),
    {
        vstd::pervasive::runtime_assert(n <= Self::MAX);
        Self::new_unchecked(n)
    }

    /// The text of the number, as `u8` prints it.
    pub fn to_string(&self) -> (s: String)
        ensures
            vstd::string::to_string_from_display_ensures::<u8>(&(self@ as u8), s),
    {
        self.to_native().to_string()
    }

    /// Convert to `u8`.
    pub fn to_native(self) -> (n: u8)
        ensures
            n == self@,
            n <= Self::MAX,
    {
        match self {
            NonMaxU8::_0 => 0,
            NonMaxU8::_1 => 1,
            NonMaxU8::_2 => 2,
            NonMaxU8::_3 => 3,
            NonMaxU8::_4 => 4,
            NonMaxU8::_5 => 5,
            NonMaxU8::_6 => 6,
            NonMaxU8::_7 => 7,
            NonMaxU8::_8 => 8,
            NonMaxU8::_9 => 9,
            NonMaxU8::_10 => 10,
            NonMaxU8::_11 => 11,
            NonMaxU8::_12 => 12,
            NonMaxU8::_13 => 13,
            NonMaxU8::_14 => 14,
            NonMaxU8::_15 => 15,
            NonMaxU8::_16 => 16,
            NonMaxU8::_17 => 17,
            NonMaxU8::_18 => 18,
            NonMaxU8::_19 => 19,
            NonMaxU8::_20 => 20,
            NonMaxU8::_21 => 21,
            NonMaxU8::_22 => 22,
            NonMaxU8::_23 => 23,
            NonMaxU8::_24 => 24,
            NonMaxU8::_25 => 25,
            NonMaxU8::_26 => 26,
            NonMaxU8::_27 => 27,
            NonMaxU8::_28 => 28,
            NonMaxU8::_29 => 29,
            NonMaxU8::_30 => 30,
            NonMaxU8::_31 => 31,
            NonMaxU8::_32 => 32,
            NonMaxU8::_33 => 33,
            NonMaxU8::_34 => 34,
            NonMaxU8::_35 => 35,
            NonMaxU8::_36 => 36,
            NonMaxU8::_37 => 37,
            NonMaxU8::_38 => 38,
            NonMaxU8::_39 => 39,
            NonMaxU8::_40 => 40,
            NonMaxU8::_41 => 41,
            NonMaxU8::_42 => 42,
            NonMaxU8::_43 => 43,
            NonMaxU8::_44 => 44,
            NonMaxU8::_45 => 45,
            NonMaxU8::_46 => 46,
            NonMaxU8::_47 => 47,
            NonMaxU8::_48 => 48,
            NonMaxU8::_49 => 49,
            NonMaxU8::_50 => 50,
            NonMaxU8::_51 => 51,
            NonMaxU8::_52 => 52,
            NonMaxU8::_53 => 53,
            NonMaxU8::_54 => 54,
            NonMaxU8::_55 => 55,
            NonMaxU8::_56 => 56,
            NonMaxU8::_57 => 57,
            NonMaxU8::_58 => 58,
            NonMaxU8::_59 => 59,
            NonMaxU8::_60 => 60,
            NonMaxU8::_61 => 61,
            NonMaxU8::_62 => 62,
            NonMaxU8::_63 => 63,
            NonMaxU8::_64 => 64,
            NonMaxU8::_65 => 65,
            NonMaxU8::_66 => 66,
            NonMaxU8::_67 => 67,
            NonMaxU8::_68 => 68,
            NonMaxU8::_69 => 69,
            NonMaxU8::_70 => 70,
            NonMaxU8::_71 => 71,
            NonMaxU8::_72 => 72,
            NonMaxU8::_73 => 73,
            NonMaxU8::_74 => 74,
            NonMaxU8::_75 => 75,
            NonMaxU8::_76 => 76,
            NonMaxU8::_77 => 77,
            NonMaxU8::_78 => 78,
            NonMaxU8::_79 => 79,
            NonMaxU8::_80 => 80,
            NonMaxU8::_81 => 81,
            NonMaxU8::_82 => 82,
            NonMaxU8::_83 => 83,
            NonMaxU8::_84 => 84,
            NonMaxU8::_85 => 85,
            NonMaxU8::_86 => 86,
            NonMaxU8::_87 => 87,
            NonMaxU8::_88 => 88,
            NonMaxU8::_89 => 89,
            NonMaxU8::_90 => 90,
            NonMaxU8::_91 => 91,
            NonMaxU8::_92 => 92,
            NonMaxU8::_93 => 93,
            NonMaxU8::_94 => 94,
            NonMaxU8::_95 => 95,
            NonMaxU8::_96 => 96,
            NonMaxU8::_97 => 97,
            NonMaxU8::_98 => 98,
            NonMaxU8::_99 => 99,
            NonMaxU8::_100 => 100,
            NonMaxU8::_101 => 101,
            NonMaxU8::_102 => 102,
            NonMaxU8::_103 => 103,
            NonMaxU8::_104 => 104,
            NonMaxU8::_105 => 105,
            NonMaxU8::_106 => 106,
            NonMaxU8::_107 => 107,
            NonMaxU8::_108 => 108,
            NonMaxU8::_109 => 109,
            NonMaxU8::_110 => 110,
            NonMaxU8::_111 => 111,
            NonMaxU8::_112 => 112,
            NonMaxU8::_113 => 113,
            NonMaxU8::_114 => 114,
            NonMaxU8::_115 => 115,
            NonMaxU8::_116 => 116,
            NonMaxU8::_117 => 117,
            NonMaxU8::_118 => 118,
            NonMaxU8::_119 => 119,
            NonMaxU8::_120 => 120,
            NonMaxU8::_121 => 121,
            NonMaxU8::_122 => 122,
            NonMaxU8::_123 => 123,
            NonMaxU8::_124 => 124,
            NonMaxU8::_125 => 125,
            NonMaxU8::_126 => 126,
            NonMaxU8::_127 => 127,
            NonMaxU8::_128 => 128,
            NonMaxU8::_129 => 129,
            NonMaxU8::_130 => 130,
            NonMaxU8::_131 => 131,
            NonMaxU8::_132 => 132,
            NonMaxU8::_133 => 133,
            NonMaxU8::_134 => 134,
            NonMaxU8::_135 => 135,
            NonMaxU8::_136 => 136,
            NonMaxU8::_137 => 137,
            NonMaxU8::_138 => 138,
            NonMaxU8::_139 => 139,
            NonMaxU8::_140 => 140,
            NonMaxU8::_141 => 141,
            NonMaxU8::_142 => 142,
            NonMaxU8::_143 => 143,
            NonMaxU8::_144 => 144,
            NonMaxU8::_145 => 145,
            NonMaxU8::_146 => 146,
            NonMaxU8::_147 => 147,
            NonMaxU8::_148 => 148,
            NonMaxU8::_149 => 149,
            NonMaxU8::_150 => 150,
            NonMaxU8::_151 => 151,
            NonMaxU8::_152 => 152,
            NonMaxU8::_153 => 153,
            NonMaxU8::_154 => 154,
            NonMaxU8::_155 => 155,
            NonMaxU8::_156 => 156,
            NonMaxU8::_157 => 157,
            NonMaxU8::_158 => 158,
            NonMaxU8::_159 => 159,
            NonMaxU8::_160 => 160,
            NonMaxU8::_161 => 161,
            NonMaxU8::_162 => 162,
            NonMaxU8::_163 => 163,
            NonMaxU8::_164 => 164,
            NonMaxU8::_165 => 165,
            NonMaxU8::_166 => 166,
            NonMaxU8::_167 => 167,
            NonMaxU8::_168 => 168,
            NonMaxU8::_169 => 169,
            NonMaxU8::_170 => 170,
            NonMaxU8::_171 => 171,
            NonMaxU8::_172 => 172,
            NonMaxU8::_173 => 173,
            NonMaxU8::_174 => 174,
            NonMaxU8::_175 => 175,
            NonMaxU8::_176 => 176,
            NonMaxU8::_177 => 177,
            NonMaxU8::_178 => 178,
            NonMaxU8::_179 => 179,
            NonMaxU8::_180 => 180,
            NonMaxU8::_181 => 181,
            NonMaxU8::_182 => 182,
            NonMaxU8::_183 => 183,
            NonMaxU8::_184 => 184,
            NonMaxU8::_185 => 185,
            NonMaxU8::_186 => 186,
            NonMaxU8::_187 => 187,
            NonMaxU8::_188 => 188,
            NonMaxU8::_189 => 189,
            NonMaxU8::_190 => 190,
            NonMaxU8::_191 => 191,
            NonMaxU8::_192 => 192,
            NonMaxU8::_193 => 193,
            NonMaxU8::_194 => 194,
            NonMaxU8::_195 => 195,
            NonMaxU8::_196 => 196,
            NonMaxU8::_197 => 197,
            NonMaxU8::_198 => 198,
            NonMaxU8::_199 => 199,
            NonMaxU8::_200 => 200,
            NonMaxU8::_201 => 201,
            NonMaxU8::_202 => 202,
            NonMaxU8::_203 => 203,
            NonMaxU8::_204 => 204,
            NonMaxU8::_205 => 205,
            NonMaxU8::_206 => 206,
            NonMaxU8::_207 => 207,
            NonMaxU8::_208 => 208,
            NonMaxU8::_209 => 209,
            NonMaxU8::_210 => 210,
            NonMaxU8::_211 => 211,
            NonMaxU8::_212 => 212,
            NonMaxU8::_213 => 213,
            NonMaxU8::_214 => 214,
            NonMaxU8::_215 => 215,
            NonMaxU8::_216 => 216,
            NonMaxU8::_217 => 217,
            NonMaxU8::_218 => 218,
            NonMaxU8::_219 => 219,
            NonMaxU8::_220 => 220,
            NonMaxU8::_221 => 221,
            NonMaxU8::_222 => 222,
            NonMaxU8::_223 => 223,
            NonMaxU8::_224 => 224,
            NonMaxU8::_225 => 225,
            NonMaxU8::_226 => 226,
            NonMaxU8::_227 => 227,
            NonMaxU8::_228 => 228,
            NonMaxU8::_229 => 229,
            NonMaxU8::_230 => 230,
            NonMaxU8::_231 => 231,
            NonMaxU8::_232 => 232,
            NonMaxU8::_233 => 233,
            NonMaxU8::_234 => 234,
            NonMaxU8::_235 => 235,
            NonMaxU8::_236 => 236,
            NonMaxU8::_237 => 237,
            NonMaxU8::_238 => 238,
            NonMaxU8::_239 => 239,
            NonMaxU8::_240 => 240,
            NonMaxU8::_241 => 241,
            NonMaxU8::_242 => 242,
            NonMaxU8::_243 => 243,
            NonMaxU8::_244 => 244,
            NonMaxU8::_245 => 245,
            NonMaxU8::_246 => 246,
            NonMaxU8::_247 => 247,
            NonMaxU8::_248 => 248,
            NonMaxU8::_249 => 249,
            NonMaxU8::_250 => 250,
            NonMaxU8::_251 => 251,
            NonMaxU8::_252 => 252,
            NonMaxU8::_253 => 253,
            NonMaxU8::_254 => 254,
        }
    }
}

impl PartialEq for NonMaxU8 {
    /// Two values are equal when they stand for the same number.
    fn eq(&self, other: &Self) -> (r: bool) {
        self.to_native() == other.to_native()
    }
}

impl vstd::std_specs::cmp::PartialEqSpecImpl for NonMaxU8 {
    open spec fn obeys_eq_spec() -> bool {
        true
    }

    open spec fn eq_spec(&self, other: &Self) -> bool {
        self@ == other@
    }
}

impl PartialOrd for NonMaxU8 {
    /// The order is that of the numbers the values stand for.
    fn partial_cmp(&self, other: &Self) -> (r: Option<Ordering>) {
        let a: u8 = self.to_native();
        let b: u8 = other.to_native();
        if a < b {
            Some(Ordering::Less)
        } else if a == b {
            Some(Ordering::Equal)
        } else {
            Some(Ordering::Greater)
        }
    }
}

impl vstd::std_specs::cmp::PartialOrdSpecImpl for NonMaxU8 {
    open spec fn obeys_partial_cmp_spec() -> bool {
        true
    }

    open spec fn partial_cmp_spec(&self, other: &Self) -> Option<Ordering> {
        if self@ < other@ {
            Some(Ordering::Less)
        } else if self@ == other@ {
            Some(Ordering::Equal)
        } else {
            Some(Ordering::Greater)
        }
    }
}

impl From<NonMaxU8> for u8 {
    /// Convert to `u8`.
    fn from(n: NonMaxU8) -> (r: u8) {
        n.to_native()
    }
}

impl vstd::std_specs::convert::FromSpecImpl<NonMaxU8> for u8 {
    open spec fn obeys_from_spec() -> bool {
        true
    }

    open spec fn from_spec(n: NonMaxU8) -> u8 {
        n@ as u8
    }
}

impl TryFrom<u8> for NonMaxU8 {
    type Error = RangeError;

    /// Convert from `u8`, or say that `n` is out of range.
    fn try_from(n: u8) -> (r: Result<Self, RangeError>) {
        if n <= Self::MAX {
            Ok(Self::new_unchecked(n))
        } else {
            Err(RangeError)
        }
    }
}

impl vstd::std_specs::convert::TryFromSpecImpl<u8> for NonMaxU8 {
    open spec fn obeys_try_from_spec() -> bool {
        true
    }

    open spec fn try_from_spec(n: u8) -> Result<Self, RangeError> {
        if n <= Self::MAX {
            Ok(Self::from_value(n))
        } else {
            Err(RangeError)
        }
    }
}

impl NonMaxU8 {
    /// Round trip: the value made from a legal `n` stands for `n`.
    pub proof fn round_trip(n: u8)
        requires
            n <= Self::MAX,
        ensures
            Self::from_value(n)@ == n,
    {
        // Each legal number has its own variant.
    }

    /// Range: whatever the value, the number it stands for is legal.
    pub proof fn in_range(self)
        ensures
            self@ <= Self::MAX,
    {
        // There is no variant above `_254`.
    }

    /// Back again: a value is the one made from the number it stands for.
    pub proof fn back_again(self)
        ensures
            Self::from_value(self@ as u8) == self,
    {
        // Each variant stands for its own number.
    }

    /// Two values that stand for the same number are the same value.
    pub proof fn one_value_per_number(a: Self, b: Self)
        requires
            a@ == b@,
        ensures
            a == b,
    {
        a.back_again();
        b.back_again();
    }

    /// Rejection: the fallible conversion fails on exactly the numbers above
    /// `MAX`, and on the others gives the value that stands for the number.
    pub proof fn rejection(n: u8)
        ensures
            n > Self::MAX <==> Self::try_from_spec(n) is Err,
            n <= Self::MAX ==> Self::try_from_spec(n) == Ok::<Self, RangeError>(Self::from_value(n)),
            n <= Self::MAX ==> Self::try_from_spec(n)->Ok_0@ == n,
    {
        if n <= Self::MAX {
            Self::round_trip(n);
        }
    }

    /// Order preservation: two values made from legal numbers compare as the
    /// numbers do, and are equal exactly when the numbers are.
    pub proof fn order_preserved(a: u8, b: u8)
        requires
            a <= Self::MAX,
            b <= Self::MAX,
        ensures
            Self::from_value(a).eq_spec(&Self::from_value(b)) <==> a == b,
            Self::from_value(a).partial_cmp_spec(&Self::from_value(b)) == Some(Ordering::Less) <==> a < b,
            Self::from_value(a).partial_cmp_spec(&Self::from_value(b)) == Some(Ordering::Equal) <==> a == b,
            Self::from_value(a).partial_cmp_spec(&Self::from_value(b)) == Some(Ordering::Greater) <==> a > b,
    {
        Self::round_trip(a);
        Self::round_trip(b);
    }

    /// `MAX` is one below `255 << 0`, and the legal numbers are those
    /// whose most significant byte is not `0xFF`.
    pub proof fn niche(n: u8)
        ensures
            Self::MAX == (255u8 << 0) - 1,
            n <= Self::MAX <==> (n >> 0) != 0xFF,
    {
        assert((255u8 << 0) == 255u8) by (bit_vector);
        assert(n <= 254u8 <==> (n >> 0) != 0xFF) by (bit_vector);
    }
}

} // verus!
