//! The case-folding table: the fixed mapping from upper-case codepoints to
//! their single lower-case equivalents, as the legacy rule set defines it,
//! together with the facts about it that the fold operations rely on.
//!
//! ASCII `A`-`Z` are deliberately absent: callers handle ASCII with a direct
//! rule, so the table starts at U+00C0.
use vstd::prelude::*;

verus! {

/// Number of entries in the mapping table.
pub const TABLE_LEN: usize = 867;

pub open spec fn pair_block00(i: int) -> (char, char) {
    if i < 25 {
        if i < 12 {
            if i < 6 {
                if i < 3 {
                    if i < 1 {
                        ('\u{c0}', '\u{e0}')
                    } else {
                        if i < 2 {
                            ('\u{c1}', '\u{e1}')
                        } else {
                            ('\u{c2}', '\u{e2}')
                        }
                    }
                } else {
                    if i < 4 {
                        ('\u{c3}', '\u{e3}')
                    } else {
                        if i < 5 {
                            ('\u{c4}', '\u{e4}')
                        } else {
                            ('\u{c5}', '\u{e5}')
                        }
                    }
                }
            } else {
                if i < 9 {
                    if i < 7 {
                        ('\u{c6}', '\u{e6}')
                    } else {
                        if i < 8 {
                            ('\u{c7}', '\u{e7}')
                        } else {
                            ('\u{c8}', '\u{e8}')
                        }
                    }
                } else {
                    if i < 10 {
                        ('\u{c9}', '\u{e9}')
                    } else {
                        if i < 11 {
                            ('\u{ca}', '\u{ea}')
                        } else {
                            ('\u{cb}', '\u{eb}')
                        }
                    }
                }
            }
        } else {
            if i < 18 {
                if i < 15 {
                    if i < 13 {
                        ('\u{cc}', '\u{ec}')
                    } else {
                        if i < 14 {
                            ('\u{cd}', '\u{ed}')
                        } else {
                            ('\u{ce}', '\u{ee}')
                        }
                    }
                } else {
                    if i < 16 {
                        ('\u{cf}', '\u{ef}')
                    } else {
                        if i < 17 {
                            ('\u{d0}', '\u{f0}')
                        } else {
                            ('\u{d1}', '\u{f1}')
                        }
                    }
                }
            } else {
                if i < 21 {
                    if i < 19 {
                        ('\u{d2}', '\u{f2}')
                    } else {
                        if i < 20 {
                            ('\u{d3}', '\u{f3}')
                        } else {
                            ('\u{d4}', '\u{f4}')
                        }
                    }
                } else {
                    if i < 23 {
                        if i < 22 {
                            ('\u{d5}', '\u{f5}')
                        } else {
                            ('\u{d6}', '\u{f6}')
                        }
                    } else {
                        if i < 24 {
                            ('\u{d8}', '\u{f8}')
                        } else {
                            ('\u{d9}', '\u{f9}')
                        }
                    }
                }
            }
        }
    } else {
        if i < 37 {
            if i < 31 {
                if i < 28 {
                    if i < 26 {
                        ('\u{da}', '\u{fa}')
                    } else {
                        if i < 27 {
                            ('\u{db}', '\u{fb}')
                        } else {
                            ('\u{dc}', '\u{fc}')
                        }
                    }
                } else {
                    if i < 29 {
                        ('\u{dd}', '\u{fd}')
                    } else {
                        if i < 30 {
                            ('\u{de}', '\u{fe}')
                        } else {
                            ('\u{100}', '\u{101}')
                        }
                    }
                }
            } else {
                if i < 34 {
                    if i < 32 {
                        ('\u{102}', '\u{103}')
                    } else {
                        if i < 33 {
                            ('\u{104}', '\u{105}')
                        } else {
                            ('\u{106}', '\u{107}')
                        }
                    }
                } else {
                    if i < 35 {
                        ('\u{108}', '\u{109}')
                    } else {
                        if i < 36 {
                            ('\u{10a}', '\u{10b}')
                        } else {
                            ('\u{10c}', '\u{10d}')
                        }
                    }
                }
            }
        } else {
            if i < 43 {
                if i < 40 {
                    if i < 38 {
                        ('\u{10e}', '\u{10f}')
                    } else {
                        if i < 39 {
                            ('\u{110}', '\u{111}')
                        } else {
                            ('\u{112}', '\u{113}')
                        }
                    }
                } else {
                    if i < 41 {
                        ('\u{114}', '\u{115}')
                    } else {
                        if i < 42 {
                            ('\u{116}', '\u{117}')
                        } else {
                            ('\u{118}', '\u{119}')
                        }
                    }
                }
            } else {
                if i < 46 {
                    if i < 44 {
                        ('\u{11a}', '\u{11b}')
                    } else {
                        if i < 45 {
                            ('\u{11c}', '\u{11d}')
                        } else {
                            ('\u{11e}', '\u{11f}')
                        }
                    }
                } else {
                    if i < 48 {
                        if i < 47 {
                            ('\u{120}', '\u{121}')
                        } else {
                            ('\u{122}', '\u{123}')
                        }
                    } else {
                        if i < 49 {
                            ('\u{124}', '\u{125}')
                        } else {
                            ('\u{126}', '\u{127}')
                        }
                    }
                }
            }
        }
    }
}

pub open spec fn pair_block01(i: int) -> (char, char) {
    if i < 75 {
        if i < 62 {
            if i < 56 {
                if i < 53 {
                    if i < 51 {
                        ('\u{128}', '\u{129}')
                    } else {
                        if i < 52 {
                            ('\u{12a}', '\u{12b}')
                        } else {
                            ('\u{12c}', '\u{12d}')
                        }
                    }
                } else {
                    if i < 54 {
                        ('\u{12e}', '\u{12f}')
                    } else {
                        if i < 55 {
                            ('\u{130}', '\u{69}')
                        } else {
                            ('\u{132}', '\u{133}')
                        }
                    }
                }
            } else {
                if i < 59 {
                    if i < 57 {
                        ('\u{134}', '\u{135}')
                    } else {
                        if i < 58 {
                            ('\u{136}', '\u{137}')
                        } else {
                            ('\u{139}', '\u{13a}')
                        }
                    }
                } else {
                    if i < 60 {
                        ('\u{13b}', '\u{13c}')
                    } else {
                        if i < 61 {
                            ('\u{13d}', '\u{13e}')
                        } else {
                            ('\u{13f}', '\u{140}')
                        }
                    }
                }
            }
        } else {
            if i < 68 {
                if i < 65 {
                    if i < 63 {
                        ('\u{141}', '\u{142}')
                    } else {
                        if i < 64 {
                            ('\u{143}', '\u{144}')
                        } else {
                            ('\u{145}', '\u{146}')
                        }
                    }
                } else {
                    if i < 66 {
                        ('\u{147}', '\u{148}')
                    } else {
                        if i < 67 {
                            ('\u{14a}', '\u{14b}')
                        } else {
                            ('\u{14c}', '\u{14d}')
                        }
                    }
                }
            } else {
                if i < 71 {
                    if i < 69 {
                        ('\u{14e}', '\u{14f}')
                    } else {
                        if i < 70 {
                            ('\u{150}', '\u{151}')
                        } else {
                            ('\u{152}', '\u{153}')
                        }
                    }
                } else {
                    if i < 73 {
                        if i < 72 {
                            ('\u{154}', '\u{155}')
                        } else {
                            ('\u{156}', '\u{157}')
                        }
                    } else {
                        if i < 74 {
                            ('\u{158}', '\u{159}')
                        } else {
                            ('\u{15a}', '\u{15b}')
                        }
                    }
                }
            }
        }
    } else {
        if i < 87 {
            if i < 81 {
                if i < 78 {
                    if i < 76 {
                        ('\u{15c}', '\u{15d}')
                    } else {
                        if i < 77 {
                            ('\u{15e}', '\u{15f}')
                        } else {
                            ('\u{160}', '\u{161}')
                        }
                    }
                } else {
                    if i < 79 {
                        ('\u{162}', '\u{163}')
                    } else {
                        if i < 80 {
                            ('\u{164}', '\u{165}')
                        } else {
                            ('\u{166}', '\u{167}')
                        }
                    }
                }
            } else {
                if i < 84 {
                    if i < 82 {
                        ('\u{168}', '\u{169}')
                    } else {
                        if i < 83 {
                            ('\u{16a}', '\u{16b}')
                        } else {
                            ('\u{16c}', '\u{16d}')
                        }
                    }
                } else {
                    if i < 85 {
                        ('\u{16e}', '\u{16f}')
                    } else {
                        if i < 86 {
                            ('\u{170}', '\u{171}')
                        } else {
                            ('\u{172}', '\u{173}')
                        }
                    }
                }
            }
        } else {
            if i < 93 {
                if i < 90 {
                    if i < 88 {
                        ('\u{174}', '\u{175}')
                    } else {
                        if i < 89 {
                            ('\u{176}', '\u{177}')
                        } else {
                            ('\u{178}', '\u{ff}')
                        }
                    }
                } else {
                    if i < 91 {
                        ('\u{179}', '\u{17a}')
                    } else {
                        if i < 92 {
                            ('\u{17b}', '\u{17c}')
                        } else {
                            ('\u{17d}', '\u{17e}')
                        }
                    }
                }
            } else {
                if i < 96 {
                    if i < 94 {
                        ('\u{181}', '\u{253}')
                    } else {
                        if i < 95 {
                            ('\u{182}', '\u{183}')
                        } else {
                            ('\u{184}', '\u{185}')
                        }
                    }
                } else {
                    if i < 98 {
                        if i < 97 {
                            ('\u{186}', '\u{254}')
                        } else {
                            ('\u{187}', '\u{188}')
                        }
                    } else {
                        if i < 99 {
                            ('\u{189}', '\u{256}')
                        } else {
                            ('\u{18a}', '\u{257}')
                        }
                    }
                }
            }
        }
    }
}

pub open spec fn pair_block02(i: int) -> (char, char) {
    if i < 125 {
        if i < 112 {
            if i < 106 {
                if i < 103 {
                    if i < 101 {
                        ('\u{18b}', '\u{18c}')
                    } else {
                        if i < 102 {
                            ('\u{18e}', '\u{1dd}')
                        } else {
                            ('\u{18f}', '\u{259}')
                        }
                    }
                } else {
                    if i < 104 {
                        ('\u{190}', '\u{25b}')
                    } else {
                        if i < 105 {
                            ('\u{191}', '\u{192}')
                        } else {
                            ('\u{193}', '\u{260}')
                        }
                    }
                }
            } else {
                if i < 109 {
                    if i < 107 {
                        ('\u{194}', '\u{263}')
                    } else {
                        if i < 108 {
                            ('\u{196}', '\u{269}')
                        } else {
                            ('\u{197}', '\u{268}')
                        }
                    }
                } else {
                    if i < 110 {
                        ('\u{198}', '\u{199}')
                    } else {
                        if i < 111 {
                            ('\u{19c}', '\u{26f}')
                        } else {
                            ('\u{19d}', '\u{272}')
                        }
                    }
                }
            }
        } else {
            if i < 118 {
                if i < 115 {
                    if i < 113 {
                        ('\u{19f}', '\u{275}')
                    } else {
                        if i < 114 {
                            ('\u{1a0}', '\u{1a1}')
                        } else {
                            ('\u{1a2}', '\u{1a3}')
                        }
                    }
                } else {
                    if i < 116 {
                        ('\u{1a4}', '\u{1a5}')
                    } else {
                        if i < 117 {
                            ('\u{1a6}', '\u{280}')
                        } else {
                            ('\u{1a7}', '\u{1a8}')
                        }
                    }
                }
            } else {
                if i < 121 {
                    if i < 119 {
                        ('\u{1a9}', '\u{283}')
                    } else {
                        if i < 120 {
                            ('\u{1ac}', '\u{1ad}')
                        } else {
                            ('\u{1ae}', '\u{288}')
                        }
                    }
                } else {
                    if i < 123 {
                        if i < 122 {
                            ('\u{1af}', '\u{1b0}')
                        } else {
                            ('\u{1b1}', '\u{28a}')
                        }
                    } else {
                        if i < 124 {
                            ('\u{1b2}', '\u{28b}')
                        } else {
                            ('\u{1b3}', '\u{1b4}')
                        }
                    }
                }
            }
        }
    } else {
        if i < 137 {
            if i < 131 {
                if i < 128 {
                    if i < 126 {
                        ('\u{1b5}', '\u{1b6}')
                    } else {
                        if i < 127 {
                            ('\u{1b7}', '\u{292}')
                        } else {
                            ('\u{1b8}', '\u{1b9}')
                        }
                    }
                } else {
                    if i < 129 {
                        ('\u{1bc}', '\u{1bd}')
                    } else {
                        if i < 130 {
                            ('\u{1c4}', '\u{1c6}')
                        } else {
                            ('\u{1c5}', '\u{1c6}')
                        }
                    }
                }
            } else {
                if i < 134 {
                    if i < 132 {
                        ('\u{1c7}', '\u{1c9}')
                    } else {
                        if i < 133 {
                            ('\u{1c8}', '\u{1c9}')
                        } else {
                            ('\u{1ca}', '\u{1cc}')
                        }
                    }
                } else {
                    if i < 135 {
                        ('\u{1cb}', '\u{1cc}')
                    } else {
                        if i < 136 {
                            ('\u{1cd}', '\u{1ce}')
                        } else {
                            ('\u{1cf}', '\u{1d0}')
                        }
                    }
                }
            }
        } else {
            if i < 143 {
                if i < 140 {
                    if i < 138 {
                        ('\u{1d1}', '\u{1d2}')
                    } else {
                        if i < 139 {
                            ('\u{1d3}', '\u{1d4}')
                        } else {
                            ('\u{1d5}', '\u{1d6}')
                        }
                    }
                } else {
                    if i < 141 {
                        ('\u{1d7}', '\u{1d8}')
                    } else {
                        if i < 142 {
                            ('\u{1d9}', '\u{1da}')
                        } else {
                            ('\u{1db}', '\u{1dc}')
                        }
                    }
                }
            } else {
                if i < 146 {
                    if i < 144 {
                        ('\u{1de}', '\u{1df}')
                    } else {
                        if i < 145 {
                            ('\u{1e0}', '\u{1e1}')
                        } else {
                            ('\u{1e2}', '\u{1e3}')
                        }
                    }
                } else {
                    if i < 148 {
                        if i < 147 {
                            ('\u{1e4}', '\u{1e5}')
                        } else {
                            ('\u{1e6}', '\u{1e7}')
                        }
                    } else {
                        if i < 149 {
                            ('\u{1e8}', '\u{1e9}')
                        } else {
                            ('\u{1ea}', '\u{1eb}')
                        }
                    }
                }
            }
        }
    }
}

pub open spec fn pair_block03(i: int) -> (char, char) {
    if i < 175 {
        if i < 162 {
            if i < 156 {
                if i < 153 {
                    if i < 151 {
                        ('\u{1ec}', '\u{1ed}')
                    } else {
                        if i < 152 {
                            ('\u{1ee}', '\u{1ef}')
                        } else {
                            ('\u{1f1}', '\u{1f3}')
                        }
                    }
                } else {
                    if i < 154 {
                        ('\u{1f2}', '\u{1f3}')
                    } else {
                        if i < 155 {
                            ('\u{1f4}', '\u{1f5}')
                        } else {
                            ('\u{1f6}', '\u{195}')
                        }
                    }
                }
            } else {
                if i < 159 {
                    if i < 157 {
                        ('\u{1f7}', '\u{1bf}')
                    } else {
                        if i < 158 {
                            ('\u{1f8}', '\u{1f9}')
                        } else {
                            ('\u{1fa}', '\u{1fb}')
                        }
                    }
                } else {
                    if i < 160 {
                        ('\u{1fc}', '\u{1fd}')
                    } else {
                        if i < 161 {
                            ('\u{1fe}', '\u{1ff}')
                        } else {
                            ('\u{200}', '\u{201}')
                        }
                    }
                }
            }
        } else {
            if i < 168 {
                if i < 165 {
                    if i < 163 {
                        ('\u{202}', '\u{203}')
                    } else {
                        if i < 164 {
                            ('\u{204}', '\u{205}')
                        } else {
                            ('\u{206}', '\u{207}')
                        }
                    }
                } else {
                    if i < 166 {
                        ('\u{208}', '\u{209}')
                    } else {
                        if i < 167 {
                            ('\u{20a}', '\u{20b}')
                        } else {
                            ('\u{20c}', '\u{20d}')
                        }
                    }
                }
            } else {
                if i < 171 {
                    if i < 169 {
                        ('\u{20e}', '\u{20f}')
                    } else {
                        if i < 170 {
                            ('\u{210}', '\u{211}')
                        } else {
                            ('\u{212}', '\u{213}')
                        }
                    }
                } else {
                    if i < 173 {
                        if i < 172 {
                            ('\u{214}', '\u{215}')
                        } else {
                            ('\u{216}', '\u{217}')
                        }
                    } else {
                        if i < 174 {
                            ('\u{218}', '\u{219}')
                        } else {
                            ('\u{21a}', '\u{21b}')
                        }
                    }
                }
            }
        }
    } else {
        if i < 187 {
            if i < 181 {
                if i < 178 {
                    if i < 176 {
                        ('\u{21c}', '\u{21d}')
                    } else {
                        if i < 177 {
                            ('\u{21e}', '\u{21f}')
                        } else {
                            ('\u{220}', '\u{19e}')
                        }
                    }
                } else {
                    if i < 179 {
                        ('\u{222}', '\u{223}')
                    } else {
                        if i < 180 {
                            ('\u{224}', '\u{225}')
                        } else {
                            ('\u{226}', '\u{227}')
                        }
                    }
                }
            } else {
                if i < 184 {
                    if i < 182 {
                        ('\u{228}', '\u{229}')
                    } else {
                        if i < 183 {
                            ('\u{22a}', '\u{22b}')
                        } else {
                            ('\u{22c}', '\u{22d}')
                        }
                    }
                } else {
                    if i < 185 {
                        ('\u{22e}', '\u{22f}')
                    } else {
                        if i < 186 {
                            ('\u{230}', '\u{231}')
                        } else {
                            ('\u{232}', '\u{233}')
                        }
                    }
                }
            }
        } else {
            if i < 193 {
                if i < 190 {
                    if i < 188 {
                        ('\u{23b}', '\u{23c}')
                    } else {
                        if i < 189 {
                            ('\u{23d}', '\u{19a}')
                        } else {
                            ('\u{345}', '\u{3b9}')
                        }
                    }
                } else {
                    if i < 191 {
                        ('\u{386}', '\u{3ac}')
                    } else {
                        if i < 192 {
                            ('\u{388}', '\u{3ad}')
                        } else {
                            ('\u{389}', '\u{3ae}')
                        }
                    }
                }
            } else {
                if i < 196 {
                    if i < 194 {
                        ('\u{38a}', '\u{3af}')
                    } else {
                        if i < 195 {
                            ('\u{38c}', '\u{3cc}')
                        } else {
                            ('\u{38e}', '\u{3cd}')
                        }
                    }
                } else {
                    if i < 198 {
                        if i < 197 {
                            ('\u{38f}', '\u{3ce}')
                        } else {
                            ('\u{391}', '\u{3b1}')
                        }
                    } else {
                        if i < 199 {
                            ('\u{392}', '\u{3b2}')
                        } else {
                            ('\u{393}', '\u{3b3}')
                        }
                    }
                }
            }
        }
    }
}

pub open spec fn pair_block04(i: int) -> (char, char) {
    if i < 225 {
        if i < 212 {
            if i < 206 {
                if i < 203 {
                    if i < 201 {
                        ('\u{394}', '\u{3b4}')
                    } else {
                        if i < 202 {
                            ('\u{395}', '\u{3b5}')
                        } else {
                            ('\u{396}', '\u{3b6}')
                        }
                    }
                } else {
                    if i < 204 {
                        ('\u{397}', '\u{3b7}')
                    } else {
                        if i < 205 {
                            ('\u{398}', '\u{3b8}')
                        } else {
                            ('\u{399}', '\u{3b9}')
                        }
                    }
                }
            } else {
                if i < 209 {
                    if i < 207 {
                        ('\u{39a}', '\u{3ba}')
                    } else {
                        if i < 208 {
                            ('\u{39b}', '\u{3bb}')
                        } else {
                            ('\u{39c}', '\u{3bc}')
                        }
                    }
                } else {
                    if i < 210 {
                        ('\u{39d}', '\u{3bd}')
                    } else {
                        if i < 211 {
                            ('\u{39e}', '\u{3be}')
                        } else {
                            ('\u{39f}', '\u{3bf}')
                        }
                    }
                }
            }
        } else {
            if i < 218 {
                if i < 215 {
                    if i < 213 {
                        ('\u{3a0}', '\u{3c0}')
                    } else {
                        if i < 214 {
                            ('\u{3a1}', '\u{3c1}')
                        } else {
                            ('\u{3a3}', '\u{3c3}')
                        }
                    }
                } else {
                    if i < 216 {
                        ('\u{3a4}', '\u{3c4}')
                    } else {
                        if i < 217 {
                            ('\u{3a5}', '\u{3c5}')
                        } else {
                            ('\u{3a6}', '\u{3c6}')
                        }
                    }
                }
            } else {
                if i < 221 {
                    if i < 219 {
                        ('\u{3a7}', '\u{3c7}')
                    } else {
                        if i < 220 {
                            ('\u{3a8}', '\u{3c8}')
                        } else {
                            ('\u{3a9}', '\u{3c9}')
                        }
                    }
                } else {
                    if i < 223 {
                        if i < 222 {
                            ('\u{3aa}', '\u{3ca}')
                        } else {
                            ('\u{3ab}', '\u{3cb}')
                        }
                    } else {
                        if i < 224 {
                            ('\u{3d8}', '\u{3d9}')
                        } else {
                            ('\u{3da}', '\u{3db}')
                        }
                    }
                }
            }
        }
    } else {
        if i < 237 {
            if i < 231 {
                if i < 228 {
                    if i < 226 {
                        ('\u{3dc}', '\u{3dd}')
                    } else {
                        if i < 227 {
                            ('\u{3de}', '\u{3df}')
                        } else {
                            ('\u{3e0}', '\u{3e1}')
                        }
                    }
                } else {
                    if i < 229 {
                        ('\u{3e2}', '\u{3e3}')
                    } else {
                        if i < 230 {
                            ('\u{3e4}', '\u{3e5}')
                        } else {
                            ('\u{3e6}', '\u{3e7}')
                        }
                    }
                }
            } else {
                if i < 234 {
                    if i < 232 {
                        ('\u{3e8}', '\u{3e9}')
                    } else {
                        if i < 233 {
                            ('\u{3ea}', '\u{3eb}')
                        } else {
                            ('\u{3ec}', '\u{3ed}')
                        }
                    }
                } else {
                    if i < 235 {
                        ('\u{3ee}', '\u{3ef}')
                    } else {
                        if i < 236 {
                            ('\u{3f4}', '\u{3b8}')
                        } else {
                            ('\u{3f7}', '\u{3f8}')
                        }
                    }
                }
            }
        } else {
            if i < 243 {
                if i < 240 {
                    if i < 238 {
                        ('\u{3f9}', '\u{3f2}')
                    } else {
                        if i < 239 {
                            ('\u{3fa}', '\u{3fb}')
                        } else {
                            ('\u{400}', '\u{450}')
                        }
                    }
                } else {
                    if i < 241 {
                        ('\u{401}', '\u{451}')
                    } else {
                        if i < 242 {
                            ('\u{402}', '\u{452}')
                        } else {
                            ('\u{403}', '\u{453}')
                        }
                    }
                }
            } else {
                if i < 246 {
                    if i < 244 {
                        ('\u{404}', '\u{454}')
                    } else {
                        if i < 245 {
                            ('\u{405}', '\u{455}')
                        } else {
                            ('\u{406}', '\u{456}')
                        }
                    }
                } else {
                    if i < 248 {
                        if i < 247 {
                            ('\u{407}', '\u{457}')
                        } else {
                            ('\u{408}', '\u{458}')
                        }
                    } else {
                        if i < 249 {
                            ('\u{409}', '\u{459}')
                        } else {
                            ('\u{40a}', '\u{45a}')
                        }
                    }
                }
            }
        }
    }
}

pub open spec fn pair_block05(i: int) -> (char, char) {
    if i < 275 {
        if i < 262 {
            if i < 256 {
                if i < 253 {
                    if i < 251 {
                        ('\u{40b}', '\u{45b}')
                    } else {
                        if i < 252 {
                            ('\u{40c}', '\u{45c}')
                        } else {
                            ('\u{40d}', '\u{45d}')
                        }
                    }
                } else {
                    if i < 254 {
                        ('\u{40e}', '\u{45e}')
                    } else {
                        if i < 255 {
                            ('\u{40f}', '\u{45f}')
                        } else {
                            ('\u{410}', '\u{430}')
                        }
                    }
                }
            } else {
                if i < 259 {
                    if i < 257 {
                        ('\u{411}', '\u{431}')
                    } else {
                        if i < 258 {
                            ('\u{412}', '\u{432}')
                        } else {
                            ('\u{413}', '\u{433}')
                        }
                    }
                } else {
                    if i < 260 {
                        ('\u{414}', '\u{434}')
                    } else {
                        if i < 261 {
                            ('\u{415}', '\u{435}')
                        } else {
                            ('\u{416}', '\u{436}')
                        }
                    }
                }
            }
        } else {
            if i < 268 {
                if i < 265 {
                    if i < 263 {
                        ('\u{417}', '\u{437}')
                    } else {
                        if i < 264 {
                            ('\u{418}', '\u{438}')
                        } else {
                            ('\u{419}', '\u{439}')
                        }
                    }
                } else {
                    if i < 266 {
                        ('\u{41a}', '\u{43a}')
                    } else {
                        if i < 267 {
                            ('\u{41b}', '\u{43b}')
                        } else {
                            ('\u{41c}', '\u{43c}')
                        }
                    }
                }
            } else {
                if i < 271 {
                    if i < 269 {
                        ('\u{41d}', '\u{43d}')
                    } else {
                        if i < 270 {
                            ('\u{41e}', '\u{43e}')
                        } else {
                            ('\u{41f}', '\u{43f}')
                        }
                    }
                } else {
                    if i < 273 {
                        if i < 272 {
                            ('\u{420}', '\u{440}')
                        } else {
                            ('\u{421}', '\u{441}')
                        }
                    } else {
                        if i < 274 {
                            ('\u{422}', '\u{442}')
                        } else {
                            ('\u{423}', '\u{443}')
                        }
                    }
                }
            }
        }
    } else {
        if i < 287 {
            if i < 281 {
                if i < 278 {
                    if i < 276 {
                        ('\u{424}', '\u{444}')
                    } else {
                        if i < 277 {
                            ('\u{425}', '\u{445}')
                        } else {
                            ('\u{426}', '\u{446}')
                        }
                    }
                } else {
                    if i < 279 {
                        ('\u{427}', '\u{447}')
                    } else {
                        if i < 280 {
                            ('\u{428}', '\u{448}')
                        } else {
                            ('\u{429}', '\u{449}')
                        }
                    }
                }
            } else {
                if i < 284 {
                    if i < 282 {
                        ('\u{42a}', '\u{44a}')
                    } else {
                        if i < 283 {
                            ('\u{42b}', '\u{44b}')
                        } else {
                            ('\u{42c}', '\u{44c}')
                        }
                    }
                } else {
                    if i < 285 {
                        ('\u{42d}', '\u{44d}')
                    } else {
                        if i < 286 {
                            ('\u{42e}', '\u{44e}')
                        } else {
                            ('\u{42f}', '\u{44f}')
                        }
                    }
                }
            }
        } else {
            if i < 293 {
                if i < 290 {
                    if i < 288 {
                        ('\u{460}', '\u{461}')
                    } else {
                        if i < 289 {
                            ('\u{462}', '\u{463}')
                        } else {
                            ('\u{464}', '\u{465}')
                        }
                    }
                } else {
                    if i < 291 {
                        ('\u{466}', '\u{467}')
                    } else {
                        if i < 292 {
                            ('\u{468}', '\u{469}')
                        } else {
                            ('\u{46a}', '\u{46b}')
                        }
                    }
                }
            } else {
                if i < 296 {
                    if i < 294 {
                        ('\u{46c}', '\u{46d}')
                    } else {
                        if i < 295 {
                            ('\u{46e}', '\u{46f}')
                        } else {
                            ('\u{470}', '\u{471}')
                        }
                    }
                } else {
                    if i < 298 {
                        if i < 297 {
                            ('\u{472}', '\u{473}')
                        } else {
                            ('\u{474}', '\u{475}')
                        }
                    } else {
                        if i < 299 {
                            ('\u{476}', '\u{477}')
                        } else {
                            ('\u{478}', '\u{479}')
                        }
                    }
                }
            }
        }
    }
}

pub open spec fn pair_block06(i: int) -> (char, char) {
    if i < 325 {
        if i < 312 {
            if i < 306 {
                if i < 303 {
                    if i < 301 {
                        ('\u{47a}', '\u{47b}')
                    } else {
                        if i < 302 {
                            ('\u{47c}', '\u{47d}')
                        } else {
                            ('\u{47e}', '\u{47f}')
                        }
                    }
                } else {
                    if i < 304 {
                        ('\u{480}', '\u{481}')
                    } else {
                        if i < 305 {
                            ('\u{48a}', '\u{48b}')
                        } else {
                            ('\u{48c}', '\u{48d}')
                        }
                    }
                }
            } else {
                if i < 309 {
                    if i < 307 {
                        ('\u{48e}', '\u{48f}')
                    } else {
                        if i < 308 {
                            ('\u{490}', '\u{491}')
                        } else {
                            ('\u{492}', '\u{493}')
                        }
                    }
                } else {
                    if i < 310 {
                        ('\u{494}', '\u{495}')
                    } else {
                        if i < 311 {
                            ('\u{496}', '\u{497}')
                        } else {
                            ('\u{498}', '\u{499}')
                        }
                    }
                }
            }
        } else {
            if i < 318 {
                if i < 315 {
                    if i < 313 {
                        ('\u{49a}', '\u{49b}')
                    } else {
                        if i < 314 {
                            ('\u{49c}', '\u{49d}')
                        } else {
                            ('\u{49e}', '\u{49f}')
                        }
                    }
                } else {
                    if i < 316 {
                        ('\u{4a0}', '\u{4a1}')
                    } else {
                        if i < 317 {
                            ('\u{4a2}', '\u{4a3}')
                        } else {
                            ('\u{4a4}', '\u{4a5}')
                        }
                    }
                }
            } else {
                if i < 321 {
                    if i < 319 {
                        ('\u{4a6}', '\u{4a7}')
                    } else {
                        if i < 320 {
                            ('\u{4a8}', '\u{4a9}')
                        } else {
                            ('\u{4aa}', '\u{4ab}')
                        }
                    }
                } else {
                    if i < 323 {
                        if i < 322 {
                            ('\u{4ac}', '\u{4ad}')
                        } else {
                            ('\u{4ae}', '\u{4af}')
                        }
                    } else {
                        if i < 324 {
                            ('\u{4b0}', '\u{4b1}')
                        } else {
                            ('\u{4b2}', '\u{4b3}')
                        }
                    }
                }
            }
        }
    } else {
        if i < 337 {
            if i < 331 {
                if i < 328 {
                    if i < 326 {
                        ('\u{4b4}', '\u{4b5}')
                    } else {
                        if i < 327 {
                            ('\u{4b6}', '\u{4b7}')
                        } else {
                            ('\u{4b8}', '\u{4b9}')
                        }
                    }
                } else {
                    if i < 329 {
                        ('\u{4ba}', '\u{4bb}')
                    } else {
                        if i < 330 {
                            ('\u{4bc}', '\u{4bd}')
                        } else {
                            ('\u{4be}', '\u{4bf}')
                        }
                    }
                }
            } else {
                if i < 334 {
                    if i < 332 {
                        ('\u{4c1}', '\u{4c2}')
                    } else {
                        if i < 333 {
                            ('\u{4c3}', '\u{4c4}')
                        } else {
                            ('\u{4c5}', '\u{4c6}')
                        }
                    }
                } else {
                    if i < 335 {
                        ('\u{4c7}', '\u{4c8}')
                    } else {
                        if i < 336 {
                            ('\u{4c9}', '\u{4ca}')
                        } else {
                            ('\u{4cb}', '\u{4cc}')
                        }
                    }
                }
            }
        } else {
            if i < 343 {
                if i < 340 {
                    if i < 338 {
                        ('\u{4cd}', '\u{4ce}')
                    } else {
                        if i < 339 {
                            ('\u{4d0}', '\u{4d1}')
                        } else {
                            ('\u{4d2}', '\u{4d3}')
                        }
                    }
                } else {
                    if i < 341 {
                        ('\u{4d4}', '\u{4d5}')
                    } else {
                        if i < 342 {
                            ('\u{4d6}', '\u{4d7}')
                        } else {
                            ('\u{4d8}', '\u{4d9}')
                        }
                    }
                }
            } else {
                if i < 346 {
                    if i < 344 {
                        ('\u{4da}', '\u{4db}')
                    } else {
                        if i < 345 {
                            ('\u{4dc}', '\u{4dd}')
                        } else {
                            ('\u{4de}', '\u{4df}')
                        }
                    }
                } else {
                    if i < 348 {
                        if i < 347 {
                            ('\u{4e0}', '\u{4e1}')
                        } else {
                            ('\u{4e2}', '\u{4e3}')
                        }
                    } else {
                        if i < 349 {
                            ('\u{4e4}', '\u{4e5}')
                        } else {
                            ('\u{4e6}', '\u{4e7}')
                        }
                    }
                }
            }
        }
    }
}

pub open spec fn pair_block07(i: int) -> (char, char) {
    if i < 375 {
        if i < 362 {
            if i < 356 {
                if i < 353 {
                    if i < 351 {
                        ('\u{4e8}', '\u{4e9}')
                    } else {
                        if i < 352 {
                            ('\u{4ea}', '\u{4eb}')
                        } else {
                            ('\u{4ec}', '\u{4ed}')
                        }
                    }
                } else {
                    if i < 354 {
                        ('\u{4ee}', '\u{4ef}')
                    } else {
                        if i < 355 {
                            ('\u{4f0}', '\u{4f1}')
                        } else {
                            ('\u{4f2}', '\u{4f3}')
                        }
                    }
                }
            } else {
                if i < 359 {
                    if i < 357 {
                        ('\u{4f4}', '\u{4f5}')
                    } else {
                        if i < 358 {
                            ('\u{4f6}', '\u{4f7}')
                        } else {
                            ('\u{4f8}', '\u{4f9}')
                        }
                    }
                } else {
                    if i < 360 {
                        ('\u{500}', '\u{501}')
                    } else {
                        if i < 361 {
                            ('\u{502}', '\u{503}')
                        } else {
                            ('\u{504}', '\u{505}')
                        }
                    }
                }
            }
        } else {
            if i < 368 {
                if i < 365 {
                    if i < 363 {
                        ('\u{506}', '\u{507}')
                    } else {
                        if i < 364 {
                            ('\u{508}', '\u{509}')
                        } else {
                            ('\u{50a}', '\u{50b}')
                        }
                    }
                } else {
                    if i < 366 {
                        ('\u{50c}', '\u{50d}')
                    } else {
                        if i < 367 {
                            ('\u{50e}', '\u{50f}')
                        } else {
                            ('\u{531}', '\u{561}')
                        }
                    }
                }
            } else {
                if i < 371 {
                    if i < 369 {
                        ('\u{532}', '\u{562}')
                    } else {
                        if i < 370 {
                            ('\u{533}', '\u{563}')
                        } else {
                            ('\u{534}', '\u{564}')
                        }
                    }
                } else {
                    if i < 373 {
                        if i < 372 {
                            ('\u{535}', '\u{565}')
                        } else {
                            ('\u{536}', '\u{566}')
                        }
                    } else {
                        if i < 374 {
                            ('\u{537}', '\u{567}')
                        } else {
                            ('\u{538}', '\u{568}')
                        }
                    }
                }
            }
        }
    } else {
        if i < 387 {
            if i < 381 {
                if i < 378 {
                    if i < 376 {
                        ('\u{539}', '\u{569}')
                    } else {
                        if i < 377 {
                            ('\u{53a}', '\u{56a}')
                        } else {
                            ('\u{53b}', '\u{56b}')
                        }
                    }
                } else {
                    if i < 379 {
                        ('\u{53c}', '\u{56c}')
                    } else {
                        if i < 380 {
                            ('\u{53d}', '\u{56d}')
                        } else {
                            ('\u{53e}', '\u{56e}')
                        }
                    }
                }
            } else {
                if i < 384 {
                    if i < 382 {
                        ('\u{53f}', '\u{56f}')
                    } else {
                        if i < 383 {
                            ('\u{540}', '\u{570}')
                        } else {
                            ('\u{541}', '\u{571}')
                        }
                    }
                } else {
                    if i < 385 {
                        ('\u{542}', '\u{572}')
                    } else {
                        if i < 386 {
                            ('\u{543}', '\u{573}')
                        } else {
                            ('\u{544}', '\u{574}')
                        }
                    }
                }
            }
        } else {
            if i < 393 {
                if i < 390 {
                    if i < 388 {
                        ('\u{545}', '\u{575}')
                    } else {
                        if i < 389 {
                            ('\u{546}', '\u{576}')
                        } else {
                            ('\u{547}', '\u{577}')
                        }
                    }
                } else {
                    if i < 391 {
                        ('\u{548}', '\u{578}')
                    } else {
                        if i < 392 {
                            ('\u{549}', '\u{579}')
                        } else {
                            ('\u{54a}', '\u{57a}')
                        }
                    }
                }
            } else {
                if i < 396 {
                    if i < 394 {
                        ('\u{54b}', '\u{57b}')
                    } else {
                        if i < 395 {
                            ('\u{54c}', '\u{57c}')
                        } else {
                            ('\u{54d}', '\u{57d}')
                        }
                    }
                } else {
                    if i < 398 {
                        if i < 397 {
                            ('\u{54e}', '\u{57e}')
                        } else {
                            ('\u{54f}', '\u{57f}')
                        }
                    } else {
                        if i < 399 {
                            ('\u{550}', '\u{580}')
                        } else {
                            ('\u{551}', '\u{581}')
                        }
                    }
                }
            }
        }
    }
}

pub open spec fn pair_block08(i: int) -> (char, char) {
    if i < 425 {
        if i < 412 {
            if i < 406 {
                if i < 403 {
                    if i < 401 {
                        ('\u{552}', '\u{582}')
                    } else {
                        if i < 402 {
                            ('\u{553}', '\u{583}')
                        } else {
                            ('\u{554}', '\u{584}')
                        }
                    }
                } else {
                    if i < 404 {
                        ('\u{555}', '\u{585}')
                    } else {
                        if i < 405 {
                            ('\u{556}', '\u{586}')
                        } else {
                            ('\u{10a0}', '\u{2d00}')
                        }
                    }
                }
            } else {
                if i < 409 {
                    if i < 407 {
                        ('\u{10a1}', '\u{2d01}')
                    } else {
                        if i < 408 {
                            ('\u{10a2}', '\u{2d02}')
                        } else {
                            ('\u{10a3}', '\u{2d03}')
                        }
                    }
                } else {
                    if i < 410 {
                        ('\u{10a4}', '\u{2d04}')
                    } else {
                        if i < 411 {
                            ('\u{10a5}', '\u{2d05}')
                        } else {
                            ('\u{10a6}', '\u{2d06}')
                        }
                    }
                }
            }
        } else {
            if i < 418 {
                if i < 415 {
                    if i < 413 {
                        ('\u{10a7}', '\u{2d07}')
                    } else {
                        if i < 414 {
                            ('\u{10a8}', '\u{2d08}')
                        } else {
                            ('\u{10a9}', '\u{2d09}')
                        }
                    }
                } else {
                    if i < 416 {
                        ('\u{10aa}', '\u{2d0a}')
                    } else {
                        if i < 417 {
                            ('\u{10ab}', '\u{2d0b}')
                        } else {
                            ('\u{10ac}', '\u{2d0c}')
                        }
                    }
                }
            } else {
                if i < 421 {
                    if i < 419 {
                        ('\u{10ad}', '\u{2d0d}')
                    } else {
                        if i < 420 {
                            ('\u{10ae}', '\u{2d0e}')
                        } else {
                            ('\u{10af}', '\u{2d0f}')
                        }
                    }
                } else {
                    if i < 423 {
                        if i < 422 {
                            ('\u{10b0}', '\u{2d10}')
                        } else {
                            ('\u{10b1}', '\u{2d11}')
                        }
                    } else {
                        if i < 424 {
                            ('\u{10b2}', '\u{2d12}')
                        } else {
                            ('\u{10b3}', '\u{2d13}')
                        }
                    }
                }
            }
        }
    } else {
        if i < 437 {
            if i < 431 {
                if i < 428 {
                    if i < 426 {
                        ('\u{10b4}', '\u{2d14}')
                    } else {
                        if i < 427 {
                            ('\u{10b5}', '\u{2d15}')
                        } else {
                            ('\u{10b6}', '\u{2d16}')
                        }
                    }
                } else {
                    if i < 429 {
                        ('\u{10b7}', '\u{2d17}')
                    } else {
                        if i < 430 {
                            ('\u{10b8}', '\u{2d18}')
                        } else {
                            ('\u{10b9}', '\u{2d19}')
                        }
                    }
                }
            } else {
                if i < 434 {
                    if i < 432 {
                        ('\u{10ba}', '\u{2d1a}')
                    } else {
                        if i < 433 {
                            ('\u{10bb}', '\u{2d1b}')
                        } else {
                            ('\u{10bc}', '\u{2d1c}')
                        }
                    }
                } else {
                    if i < 435 {
                        ('\u{10bd}', '\u{2d1d}')
                    } else {
                        if i < 436 {
                            ('\u{10be}', '\u{2d1e}')
                        } else {
                            ('\u{10bf}', '\u{2d1f}')
                        }
                    }
                }
            }
        } else {
            if i < 443 {
                if i < 440 {
                    if i < 438 {
                        ('\u{10c0}', '\u{2d20}')
                    } else {
                        if i < 439 {
                            ('\u{10c1}', '\u{2d21}')
                        } else {
                            ('\u{10c2}', '\u{2d22}')
                        }
                    }
                } else {
                    if i < 441 {
                        ('\u{10c3}', '\u{2d23}')
                    } else {
                        if i < 442 {
                            ('\u{10c4}', '\u{2d24}')
                        } else {
                            ('\u{10c5}', '\u{2d25}')
                        }
                    }
                }
            } else {
                if i < 446 {
                    if i < 444 {
                        ('\u{1e00}', '\u{1e01}')
                    } else {
                        if i < 445 {
                            ('\u{1e02}', '\u{1e03}')
                        } else {
                            ('\u{1e04}', '\u{1e05}')
                        }
                    }
                } else {
                    if i < 448 {
                        if i < 447 {
                            ('\u{1e06}', '\u{1e07}')
                        } else {
                            ('\u{1e08}', '\u{1e09}')
                        }
                    } else {
                        if i < 449 {
                            ('\u{1e0a}', '\u{1e0b}')
                        } else {
                            ('\u{1e0c}', '\u{1e0d}')
                        }
                    }
                }
            }
        }
    }
}

pub open spec fn pair_block09(i: int) -> (char, char) {
    if i < 475 {
        if i < 462 {
            if i < 456 {
                if i < 453 {
                    if i < 451 {
                        ('\u{1e0e}', '\u{1e0f}')
                    } else {
                        if i < 452 {
                            ('\u{1e10}', '\u{1e11}')
                        } else {
                            ('\u{1e12}', '\u{1e13}')
                        }
                    }
                } else {
                    if i < 454 {
                        ('\u{1e14}', '\u{1e15}')
                    } else {
                        if i < 455 {
                            ('\u{1e16}', '\u{1e17}')
                        } else {
                            ('\u{1e18}', '\u{1e19}')
                        }
                    }
                }
            } else {
                if i < 459 {
                    if i < 457 {
                        ('\u{1e1a}', '\u{1e1b}')
                    } else {
                        if i < 458 {
                            ('\u{1e1c}', '\u{1e1d}')
                        } else {
                            ('\u{1e1e}', '\u{1e1f}')
                        }
                    }
                } else {
                    if i < 460 {
                        ('\u{1e20}', '\u{1e21}')
                    } else {
                        if i < 461 {
                            ('\u{1e22}', '\u{1e23}')
                        } else {
                            ('\u{1e24}', '\u{1e25}')
                        }
                    }
                }
            }
        } else {
            if i < 468 {
                if i < 465 {
                    if i < 463 {
                        ('\u{1e26}', '\u{1e27}')
                    } else {
                        if i < 464 {
                            ('\u{1e28}', '\u{1e29}')
                        } else {
                            ('\u{1e2a}', '\u{1e2b}')
                        }
                    }
                } else {
                    if i < 466 {
                        ('\u{1e2c}', '\u{1e2d}')
                    } else {
                        if i < 467 {
                            ('\u{1e2e}', '\u{1e2f}')
                        } else {
                            ('\u{1e30}', '\u{1e31}')
                        }
                    }
                }
            } else {
                if i < 471 {
                    if i < 469 {
                        ('\u{1e32}', '\u{1e33}')
                    } else {
                        if i < 470 {
                            ('\u{1e34}', '\u{1e35}')
                        } else {
                            ('\u{1e36}', '\u{1e37}')
                        }
                    }
                } else {
                    if i < 473 {
                        if i < 472 {
                            ('\u{1e38}', '\u{1e39}')
                        } else {
                            ('\u{1e3a}', '\u{1e3b}')
                        }
                    } else {
                        if i < 474 {
                            ('\u{1e3c}', '\u{1e3d}')
                        } else {
                            ('\u{1e3e}', '\u{1e3f}')
                        }
                    }
                }
            }
        }
    } else {
        if i < 487 {
            if i < 481 {
                if i < 478 {
                    if i < 476 {
                        ('\u{1e40}', '\u{1e41}')
                    } else {
                        if i < 477 {
                            ('\u{1e42}', '\u{1e43}')
                        } else {
                            ('\u{1e44}', '\u{1e45}')
                        }
                    }
                } else {
                    if i < 479 {
                        ('\u{1e46}', '\u{1e47}')
                    } else {
                        if i < 480 {
                            ('\u{1e48}', '\u{1e49}')
                        } else {
                            ('\u{1e4a}', '\u{1e4b}')
                        }
                    }
                }
            } else {
                if i < 484 {
                    if i < 482 {
                        ('\u{1e4c}', '\u{1e4d}')
                    } else {
                        if i < 483 {
                            ('\u{1e4e}', '\u{1e4f}')
                        } else {
                            ('\u{1e50}', '\u{1e51}')
                        }
                    }
                } else {
                    if i < 485 {
                        ('\u{1e52}', '\u{1e53}')
                    } else {
                        if i < 486 {
                            ('\u{1e54}', '\u{1e55}')
                        } else {
                            ('\u{1e56}', '\u{1e57}')
                        }
                    }
                }
            }
        } else {
            if i < 493 {
                if i < 490 {
                    if i < 488 {
                        ('\u{1e58}', '\u{1e59}')
                    } else {
                        if i < 489 {
                            ('\u{1e5a}', '\u{1e5b}')
                        } else {
                            ('\u{1e5c}', '\u{1e5d}')
                        }
                    }
                } else {
                    if i < 491 {
                        ('\u{1e5e}', '\u{1e5f}')
                    } else {
                        if i < 492 {
                            ('\u{1e60}', '\u{1e61}')
                        } else {
                            ('\u{1e62}', '\u{1e63}')
                        }
                    }
                }
            } else {
                if i < 496 {
                    if i < 494 {
                        ('\u{1e64}', '\u{1e65}')
                    } else {
                        if i < 495 {
                            ('\u{1e66}', '\u{1e67}')
                        } else {
                            ('\u{1e68}', '\u{1e69}')
                        }
                    }
                } else {
                    if i < 498 {
                        if i < 497 {
                            ('\u{1e6a}', '\u{1e6b}')
                        } else {
                            ('\u{1e6c}', '\u{1e6d}')
                        }
                    } else {
                        if i < 499 {
                            ('\u{1e6e}', '\u{1e6f}')
                        } else {
                            ('\u{1e70}', '\u{1e71}')
                        }
                    }
                }
            }
        }
    }
}

pub open spec fn pair_block10(i: int) -> (char, char) {
    if i < 525 {
        if i < 512 {
            if i < 506 {
                if i < 503 {
                    if i < 501 {
                        ('\u{1e72}', '\u{1e73}')
                    } else {
                        if i < 502 {
                            ('\u{1e74}', '\u{1e75}')
                        } else {
                            ('\u{1e76}', '\u{1e77}')
                        }
                    }
                } else {
                    if i < 504 {
                        ('\u{1e78}', '\u{1e79}')
                    } else {
                        if i < 505 {
                            ('\u{1e7a}', '\u{1e7b}')
                        } else {
                            ('\u{1e7c}', '\u{1e7d}')
                        }
                    }
                }
            } else {
                if i < 509 {
                    if i < 507 {
                        ('\u{1e7e}', '\u{1e7f}')
                    } else {
                        if i < 508 {
                            ('\u{1e80}', '\u{1e81}')
                        } else {
                            ('\u{1e82}', '\u{1e83}')
                        }
                    }
                } else {
                    if i < 510 {
                        ('\u{1e84}', '\u{1e85}')
                    } else {
                        if i < 511 {
                            ('\u{1e86}', '\u{1e87}')
                        } else {
                            ('\u{1e88}', '\u{1e89}')
                        }
                    }
                }
            }
        } else {
            if i < 518 {
                if i < 515 {
                    if i < 513 {
                        ('\u{1e8a}', '\u{1e8b}')
                    } else {
                        if i < 514 {
                            ('\u{1e8c}', '\u{1e8d}')
                        } else {
                            ('\u{1e8e}', '\u{1e8f}')
                        }
                    }
                } else {
                    if i < 516 {
                        ('\u{1e90}', '\u{1e91}')
                    } else {
                        if i < 517 {
                            ('\u{1e92}', '\u{1e93}')
                        } else {
                            ('\u{1e94}', '\u{1e95}')
                        }
                    }
                }
            } else {
                if i < 521 {
                    if i < 519 {
                        ('\u{1ea0}', '\u{1ea1}')
                    } else {
                        if i < 520 {
                            ('\u{1ea2}', '\u{1ea3}')
                        } else {
                            ('\u{1ea4}', '\u{1ea5}')
                        }
                    }
                } else {
                    if i < 523 {
                        if i < 522 {
                            ('\u{1ea6}', '\u{1ea7}')
                        } else {
                            ('\u{1ea8}', '\u{1ea9}')
                        }
                    } else {
                        if i < 524 {
                            ('\u{1eaa}', '\u{1eab}')
                        } else {
                            ('\u{1eac}', '\u{1ead}')
                        }
                    }
                }
            }
        }
    } else {
        if i < 537 {
            if i < 531 {
                if i < 528 {
                    if i < 526 {
                        ('\u{1eae}', '\u{1eaf}')
                    } else {
                        if i < 527 {
                            ('\u{1eb0}', '\u{1eb1}')
                        } else {
                            ('\u{1eb2}', '\u{1eb3}')
                        }
                    }
                } else {
                    if i < 529 {
                        ('\u{1eb4}', '\u{1eb5}')
                    } else {
                        if i < 530 {
                            ('\u{1eb6}', '\u{1eb7}')
                        } else {
                            ('\u{1eb8}', '\u{1eb9}')
                        }
                    }
                }
            } else {
                if i < 534 {
                    if i < 532 {
                        ('\u{1eba}', '\u{1ebb}')
                    } else {
                        if i < 533 {
                            ('\u{1ebc}', '\u{1ebd}')
                        } else {
                            ('\u{1ebe}', '\u{1ebf}')
                        }
                    }
                } else {
                    if i < 535 {
                        ('\u{1ec0}', '\u{1ec1}')
                    } else {
                        if i < 536 {
                            ('\u{1ec2}', '\u{1ec3}')
                        } else {
                            ('\u{1ec4}', '\u{1ec5}')
                        }
                    }
                }
            }
        } else {
            if i < 543 {
                if i < 540 {
                    if i < 538 {
                        ('\u{1ec6}', '\u{1ec7}')
                    } else {
                        if i < 539 {
                            ('\u{1ec8}', '\u{1ec9}')
                        } else {
                            ('\u{1eca}', '\u{1ecb}')
                        }
                    }
                } else {
                    if i < 541 {
                        ('\u{1ecc}', '\u{1ecd}')
                    } else {
                        if i < 542 {
                            ('\u{1ece}', '\u{1ecf}')
                        } else {
                            ('\u{1ed0}', '\u{1ed1}')
                        }
                    }
                }
            } else {
                if i < 546 {
                    if i < 544 {
                        ('\u{1ed2}', '\u{1ed3}')
                    } else {
                        if i < 545 {
                            ('\u{1ed4}', '\u{1ed5}')
                        } else {
                            ('\u{1ed6}', '\u{1ed7}')
                        }
                    }
                } else {
                    if i < 548 {
                        if i < 547 {
                            ('\u{1ed8}', '\u{1ed9}')
                        } else {
                            ('\u{1eda}', '\u{1edb}')
                        }
                    } else {
                        if i < 549 {
                            ('\u{1edc}', '\u{1edd}')
                        } else {
                            ('\u{1ede}', '\u{1edf}')
                        }
                    }
                }
            }
        }
    }
}

pub open spec fn pair_block11(i: int) -> (char, char) {
    if i < 575 {
        if i < 562 {
            if i < 556 {
                if i < 553 {
                    if i < 551 {
                        ('\u{1ee0}', '\u{1ee1}')
                    } else {
                        if i < 552 {
                            ('\u{1ee2}', '\u{1ee3}')
                        } else {
                            ('\u{1ee4}', '\u{1ee5}')
                        }
                    }
                } else {
                    if i < 554 {
                        ('\u{1ee6}', '\u{1ee7}')
                    } else {
                        if i < 555 {
                            ('\u{1ee8}', '\u{1ee9}')
                        } else {
                            ('\u{1eea}', '\u{1eeb}')
                        }
                    }
                }
            } else {
                if i < 559 {
                    if i < 557 {
                        ('\u{1eec}', '\u{1eed}')
                    } else {
                        if i < 558 {
                            ('\u{1eee}', '\u{1eef}')
                        } else {
                            ('\u{1ef0}', '\u{1ef1}')
                        }
                    }
                } else {
                    if i < 560 {
                        ('\u{1ef2}', '\u{1ef3}')
                    } else {
                        if i < 561 {
                            ('\u{1ef4}', '\u{1ef5}')
                        } else {
                            ('\u{1ef6}', '\u{1ef7}')
                        }
                    }
                }
            }
        } else {
            if i < 568 {
                if i < 565 {
                    if i < 563 {
                        ('\u{1ef8}', '\u{1ef9}')
                    } else {
                        if i < 564 {
                            ('\u{1f08}', '\u{1f00}')
                        } else {
                            ('\u{1f09}', '\u{1f01}')
                        }
                    }
                } else {
                    if i < 566 {
                        ('\u{1f0a}', '\u{1f02}')
                    } else {
                        if i < 567 {
                            ('\u{1f0b}', '\u{1f03}')
                        } else {
                            ('\u{1f0c}', '\u{1f04}')
                        }
                    }
                }
            } else {
                if i < 571 {
                    if i < 569 {
                        ('\u{1f0d}', '\u{1f05}')
                    } else {
                        if i < 570 {
                            ('\u{1f0e}', '\u{1f06}')
                        } else {
                            ('\u{1f0f}', '\u{1f07}')
                        }
                    }
                } else {
                    if i < 573 {
                        if i < 572 {
                            ('\u{1f18}', '\u{1f10}')
                        } else {
                            ('\u{1f19}', '\u{1f11}')
                        }
                    } else {
                        if i < 574 {
                            ('\u{1f1a}', '\u{1f12}')
                        } else {
                            ('\u{1f1b}', '\u{1f13}')
                        }
                    }
                }
            }
        }
    } else {
        if i < 587 {
            if i < 581 {
                if i < 578 {
                    if i < 576 {
                        ('\u{1f1c}', '\u{1f14}')
                    } else {
                        if i < 577 {
                            ('\u{1f1d}', '\u{1f15}')
                        } else {
                            ('\u{1f28}', '\u{1f20}')
                        }
                    }
                } else {
                    if i < 579 {
                        ('\u{1f29}', '\u{1f21}')
                    } else {
                        if i < 580 {
                            ('\u{1f2a}', '\u{1f22}')
                        } else {
                            ('\u{1f2b}', '\u{1f23}')
                        }
                    }
                }
            } else {
                if i < 584 {
                    if i < 582 {
                        ('\u{1f2c}', '\u{1f24}')
                    } else {
                        if i < 583 {
                            ('\u{1f2d}', '\u{1f25}')
                        } else {
                            ('\u{1f2e}', '\u{1f26}')
                        }
                    }
                } else {
                    if i < 585 {
                        ('\u{1f2f}', '\u{1f27}')
                    } else {
                        if i < 586 {
                            ('\u{1f38}', '\u{1f30}')
                        } else {
                            ('\u{1f39}', '\u{1f31}')
                        }
                    }
                }
            }
        } else {
            if i < 593 {
                if i < 590 {
                    if i < 588 {
                        ('\u{1f3a}', '\u{1f32}')
                    } else {
                        if i < 589 {
                            ('\u{1f3b}', '\u{1f33}')
                        } else {
                            ('\u{1f3c}', '\u{1f34}')
                        }
                    }
                } else {
                    if i < 591 {
                        ('\u{1f3d}', '\u{1f35}')
                    } else {
                        if i < 592 {
                            ('\u{1f3e}', '\u{1f36}')
                        } else {
                            ('\u{1f3f}', '\u{1f37}')
                        }
                    }
                }
            } else {
                if i < 596 {
                    if i < 594 {
                        ('\u{1f48}', '\u{1f40}')
                    } else {
                        if i < 595 {
                            ('\u{1f49}', '\u{1f41}')
                        } else {
                            ('\u{1f4a}', '\u{1f42}')
                        }
                    }
                } else {
                    if i < 598 {
                        if i < 597 {
                            ('\u{1f4b}', '\u{1f43}')
                        } else {
                            ('\u{1f4c}', '\u{1f44}')
                        }
                    } else {
                        if i < 599 {
                            ('\u{1f4d}', '\u{1f45}')
                        } else {
                            ('\u{1f59}', '\u{1f51}')
                        }
                    }
                }
            }
        }
    }
}

pub open spec fn pair_block12(i: int) -> (char, char) {
    if i < 625 {
        if i < 612 {
            if i < 606 {
                if i < 603 {
                    if i < 601 {
                        ('\u{1f5b}', '\u{1f53}')
                    } else {
                        if i < 602 {
                            ('\u{1f5d}', '\u{1f55}')
                        } else {
                            ('\u{1f5f}', '\u{1f57}')
                        }
                    }
                } else {
                    if i < 604 {
                        ('\u{1f68}', '\u{1f60}')
                    } else {
                        if i < 605 {
                            ('\u{1f69}', '\u{1f61}')
                        } else {
                            ('\u{1f6a}', '\u{1f62}')
                        }
                    }
                }
            } else {
                if i < 609 {
                    if i < 607 {
                        ('\u{1f6b}', '\u{1f63}')
                    } else {
                        if i < 608 {
                            ('\u{1f6c}', '\u{1f64}')
                        } else {
                            ('\u{1f6d}', '\u{1f65}')
                        }
                    }
                } else {
                    if i < 610 {
                        ('\u{1f6e}', '\u{1f66}')
                    } else {
                        if i < 611 {
                            ('\u{1f6f}', '\u{1f67}')
                        } else {
                            ('\u{1f88}', '\u{1f80}')
                        }
                    }
                }
            }
        } else {
            if i < 618 {
                if i < 615 {
                    if i < 613 {
                        ('\u{1f89}', '\u{1f81}')
                    } else {
                        if i < 614 {
                            ('\u{1f8a}', '\u{1f82}')
                        } else {
                            ('\u{1f8b}', '\u{1f83}')
                        }
                    }
                } else {
                    if i < 616 {
                        ('\u{1f8c}', '\u{1f84}')
                    } else {
                        if i < 617 {
                            ('\u{1f8d}', '\u{1f85}')
                        } else {
                            ('\u{1f8e}', '\u{1f86}')
                        }
                    }
                }
            } else {
                if i < 621 {
                    if i < 619 {
                        ('\u{1f8f}', '\u{1f87}')
                    } else {
                        if i < 620 {
                            ('\u{1f98}', '\u{1f90}')
                        } else {
                            ('\u{1f99}', '\u{1f91}')
                        }
                    }
                } else {
                    if i < 623 {
                        if i < 622 {
                            ('\u{1f9a}', '\u{1f92}')
                        } else {
                            ('\u{1f9b}', '\u{1f93}')
                        }
                    } else {
                        if i < 624 {
                            ('\u{1f9c}', '\u{1f94}')
                        } else {
                            ('\u{1f9d}', '\u{1f95}')
                        }
                    }
                }
            }
        }
    } else {
        if i < 637 {
            if i < 631 {
                if i < 628 {
                    if i < 626 {
                        ('\u{1f9e}', '\u{1f96}')
                    } else {
                        if i < 627 {
                            ('\u{1f9f}', '\u{1f97}')
                        } else {
                            ('\u{1fa8}', '\u{1fa0}')
                        }
                    }
                } else {
                    if i < 629 {
                        ('\u{1fa9}', '\u{1fa1}')
                    } else {
                        if i < 630 {
                            ('\u{1faa}', '\u{1fa2}')
                        } else {
                            ('\u{1fab}', '\u{1fa3}')
                        }
                    }
                }
            } else {
                if i < 634 {
                    if i < 632 {
                        ('\u{1fac}', '\u{1fa4}')
                    } else {
                        if i < 633 {
                            ('\u{1fad}', '\u{1fa5}')
                        } else {
                            ('\u{1fae}', '\u{1fa6}')
                        }
                    }
                } else {
                    if i < 635 {
                        ('\u{1faf}', '\u{1fa7}')
                    } else {
                        if i < 636 {
                            ('\u{1fb8}', '\u{1fb0}')
                        } else {
                            ('\u{1fb9}', '\u{1fb1}')
                        }
                    }
                }
            }
        } else {
            if i < 643 {
                if i < 640 {
                    if i < 638 {
                        ('\u{1fba}', '\u{1f70}')
                    } else {
                        if i < 639 {
                            ('\u{1fbb}', '\u{1f71}')
                        } else {
                            ('\u{1fbc}', '\u{1fb3}')
                        }
                    }
                } else {
                    if i < 641 {
                        ('\u{1fc8}', '\u{1f72}')
                    } else {
                        if i < 642 {
                            ('\u{1fc9}', '\u{1f73}')
                        } else {
                            ('\u{1fca}', '\u{1f74}')
                        }
                    }
                }
            } else {
                if i < 646 {
                    if i < 644 {
                        ('\u{1fcb}', '\u{1f75}')
                    } else {
                        if i < 645 {
                            ('\u{1fcc}', '\u{1fc3}')
                        } else {
                            ('\u{1fd8}', '\u{1fd0}')
                        }
                    }
                } else {
                    if i < 648 {
                        if i < 647 {
                            ('\u{1fd9}', '\u{1fd1}')
                        } else {
                            ('\u{1fda}', '\u{1f76}')
                        }
                    } else {
                        if i < 649 {
                            ('\u{1fdb}', '\u{1f77}')
                        } else {
                            ('\u{1fe8}', '\u{1fe0}')
                        }
                    }
                }
            }
        }
    }
}

pub open spec fn pair_block13(i: int) -> (char, char) {
    if i < 675 {
        if i < 662 {
            if i < 656 {
                if i < 653 {
                    if i < 651 {
                        ('\u{1fe9}', '\u{1fe1}')
                    } else {
                        if i < 652 {
                            ('\u{1fea}', '\u{1f7a}')
                        } else {
                            ('\u{1feb}', '\u{1f7b}')
                        }
                    }
                } else {
                    if i < 654 {
                        ('\u{1fec}', '\u{1fe5}')
                    } else {
                        if i < 655 {
                            ('\u{1ff8}', '\u{1f78}')
                        } else {
                            ('\u{1ff9}', '\u{1f79}')
                        }
                    }
                }
            } else {
                if i < 659 {
                    if i < 657 {
                        ('\u{1ffa}', '\u{1f7c}')
                    } else {
                        if i < 658 {
                            ('\u{1ffb}', '\u{1f7d}')
                        } else {
                            ('\u{1ffc}', '\u{1ff3}')
                        }
                    }
                } else {
                    if i < 660 {
                        ('\u{2126}', '\u{3c9}')
                    } else {
                        if i < 661 {
                            ('\u{212a}', '\u{6b}')
                        } else {
                            ('\u{212b}', '\u{e5}')
                        }
                    }
                }
            }
        } else {
            if i < 668 {
                if i < 665 {
                    if i < 663 {
                        ('\u{2160}', '\u{2170}')
                    } else {
                        if i < 664 {
                            ('\u{2161}', '\u{2171}')
                        } else {
                            ('\u{2162}', '\u{2172}')
                        }
                    }
                } else {
                    if i < 666 {
                        ('\u{2163}', '\u{2173}')
                    } else {
                        if i < 667 {
                            ('\u{2164}', '\u{2174}')
                        } else {
                            ('\u{2165}', '\u{2175}')
                        }
                    }
                }
            } else {
                if i < 671 {
                    if i < 669 {
                        ('\u{2166}', '\u{2176}')
                    } else {
                        if i < 670 {
                            ('\u{2167}', '\u{2177}')
                        } else {
                            ('\u{2168}', '\u{2178}')
                        }
                    }
                } else {
                    if i < 673 {
                        if i < 672 {
                            ('\u{2169}', '\u{2179}')
                        } else {
                            ('\u{216a}', '\u{217a}')
                        }
                    } else {
                        if i < 674 {
                            ('\u{216b}', '\u{217b}')
                        } else {
                            ('\u{216c}', '\u{217c}')
                        }
                    }
                }
            }
        }
    } else {
        if i < 687 {
            if i < 681 {
                if i < 678 {
                    if i < 676 {
                        ('\u{216d}', '\u{217d}')
                    } else {
                        if i < 677 {
                            ('\u{216e}', '\u{217e}')
                        } else {
                            ('\u{216f}', '\u{217f}')
                        }
                    }
                } else {
                    if i < 679 {
                        ('\u{24b6}', '\u{24d0}')
                    } else {
                        if i < 680 {
                            ('\u{24b7}', '\u{24d1}')
                        } else {
                            ('\u{24b8}', '\u{24d2}')
                        }
                    }
                }
            } else {
                if i < 684 {
                    if i < 682 {
                        ('\u{24b9}', '\u{24d3}')
                    } else {
                        if i < 683 {
                            ('\u{24ba}', '\u{24d4}')
                        } else {
                            ('\u{24bb}', '\u{24d5}')
                        }
                    }
                } else {
                    if i < 685 {
                        ('\u{24bc}', '\u{24d6}')
                    } else {
                        if i < 686 {
                            ('\u{24bd}', '\u{24d7}')
                        } else {
                            ('\u{24be}', '\u{24d8}')
                        }
                    }
                }
            }
        } else {
            if i < 693 {
                if i < 690 {
                    if i < 688 {
                        ('\u{24bf}', '\u{24d9}')
                    } else {
                        if i < 689 {
                            ('\u{24c0}', '\u{24da}')
                        } else {
                            ('\u{24c1}', '\u{24db}')
                        }
                    }
                } else {
                    if i < 691 {
                        ('\u{24c2}', '\u{24dc}')
                    } else {
                        if i < 692 {
                            ('\u{24c3}', '\u{24dd}')
                        } else {
                            ('\u{24c4}', '\u{24de}')
                        }
                    }
                }
            } else {
                if i < 696 {
                    if i < 694 {
                        ('\u{24c5}', '\u{24df}')
                    } else {
                        if i < 695 {
                            ('\u{24c6}', '\u{24e0}')
                        } else {
                            ('\u{24c7}', '\u{24e1}')
                        }
                    }
                } else {
                    if i < 698 {
                        if i < 697 {
                            ('\u{24c8}', '\u{24e2}')
                        } else {
                            ('\u{24c9}', '\u{24e3}')
                        }
                    } else {
                        if i < 699 {
                            ('\u{24ca}', '\u{24e4}')
                        } else {
                            ('\u{24cb}', '\u{24e5}')
                        }
                    }
                }
            }
        }
    }
}

pub open spec fn pair_block14(i: int) -> (char, char) {
    if i < 725 {
        if i < 712 {
            if i < 706 {
                if i < 703 {
                    if i < 701 {
                        ('\u{24cc}', '\u{24e6}')
                    } else {
                        if i < 702 {
                            ('\u{24cd}', '\u{24e7}')
                        } else {
                            ('\u{24ce}', '\u{24e8}')
                        }
                    }
                } else {
                    if i < 704 {
                        ('\u{24cf}', '\u{24e9}')
                    } else {
                        if i < 705 {
                            ('\u{2c00}', '\u{2c30}')
                        } else {
                            ('\u{2c01}', '\u{2c31}')
                        }
                    }
                }
            } else {
                if i < 709 {
                    if i < 707 {
                        ('\u{2c02}', '\u{2c32}')
                    } else {
                        if i < 708 {
                            ('\u{2c03}', '\u{2c33}')
                        } else {
                            ('\u{2c04}', '\u{2c34}')
                        }
                    }
                } else {
                    if i < 710 {
                        ('\u{2c05}', '\u{2c35}')
                    } else {
                        if i < 711 {
                            ('\u{2c06}', '\u{2c36}')
                        } else {
                            ('\u{2c07}', '\u{2c37}')
                        }
                    }
                }
            }
        } else {
            if i < 718 {
                if i < 715 {
                    if i < 713 {
                        ('\u{2c08}', '\u{2c38}')
                    } else {
                        if i < 714 {
                            ('\u{2c09}', '\u{2c39}')
                        } else {
                            ('\u{2c0a}', '\u{2c3a}')
                        }
                    }
                } else {
                    if i < 716 {
                        ('\u{2c0b}', '\u{2c3b}')
                    } else {
                        if i < 717 {
                            ('\u{2c0c}', '\u{2c3c}')
                        } else {
                            ('\u{2c0d}', '\u{2c3d}')
                        }
                    }
                }
            } else {
                if i < 721 {
                    if i < 719 {
                        ('\u{2c0e}', '\u{2c3e}')
                    } else {
                        if i < 720 {
                            ('\u{2c0f}', '\u{2c3f}')
                        } else {
                            ('\u{2c10}', '\u{2c40}')
                        }
                    }
                } else {
                    if i < 723 {
                        if i < 722 {
                            ('\u{2c11}', '\u{2c41}')
                        } else {
                            ('\u{2c12}', '\u{2c42}')
                        }
                    } else {
                        if i < 724 {
                            ('\u{2c13}', '\u{2c43}')
                        } else {
                            ('\u{2c14}', '\u{2c44}')
                        }
                    }
                }
            }
        }
    } else {
        if i < 737 {
            if i < 731 {
                if i < 728 {
                    if i < 726 {
                        ('\u{2c15}', '\u{2c45}')
                    } else {
                        if i < 727 {
                            ('\u{2c16}', '\u{2c46}')
                        } else {
                            ('\u{2c17}', '\u{2c47}')
                        }
                    }
                } else {
                    if i < 729 {
                        ('\u{2c18}', '\u{2c48}')
                    } else {
                        if i < 730 {
                            ('\u{2c19}', '\u{2c49}')
                        } else {
                            ('\u{2c1a}', '\u{2c4a}')
                        }
                    }
                }
            } else {
                if i < 734 {
                    if i < 732 {
                        ('\u{2c1b}', '\u{2c4b}')
                    } else {
                        if i < 733 {
                            ('\u{2c1c}', '\u{2c4c}')
                        } else {
                            ('\u{2c1d}', '\u{2c4d}')
                        }
                    }
                } else {
                    if i < 735 {
                        ('\u{2c1e}', '\u{2c4e}')
                    } else {
                        if i < 736 {
                            ('\u{2c1f}', '\u{2c4f}')
                        } else {
                            ('\u{2c20}', '\u{2c50}')
                        }
                    }
                }
            }
        } else {
            if i < 743 {
                if i < 740 {
                    if i < 738 {
                        ('\u{2c21}', '\u{2c51}')
                    } else {
                        if i < 739 {
                            ('\u{2c22}', '\u{2c52}')
                        } else {
                            ('\u{2c23}', '\u{2c53}')
                        }
                    }
                } else {
                    if i < 741 {
                        ('\u{2c24}', '\u{2c54}')
                    } else {
                        if i < 742 {
                            ('\u{2c25}', '\u{2c55}')
                        } else {
                            ('\u{2c26}', '\u{2c56}')
                        }
                    }
                }
            } else {
                if i < 746 {
                    if i < 744 {
                        ('\u{2c27}', '\u{2c57}')
                    } else {
                        if i < 745 {
                            ('\u{2c28}', '\u{2c58}')
                        } else {
                            ('\u{2c29}', '\u{2c59}')
                        }
                    }
                } else {
                    if i < 748 {
                        if i < 747 {
                            ('\u{2c2a}', '\u{2c5a}')
                        } else {
                            ('\u{2c2b}', '\u{2c5b}')
                        }
                    } else {
                        if i < 749 {
                            ('\u{2c2c}', '\u{2c5c}')
                        } else {
                            ('\u{2c2d}', '\u{2c5d}')
                        }
                    }
                }
            }
        }
    }
}

pub open spec fn pair_block15(i: int) -> (char, char) {
    if i < 775 {
        if i < 762 {
            if i < 756 {
                if i < 753 {
                    if i < 751 {
                        ('\u{2c2e}', '\u{2c5e}')
                    } else {
                        if i < 752 {
                            ('\u{2c80}', '\u{2c81}')
                        } else {
                            ('\u{2c82}', '\u{2c83}')
                        }
                    }
                } else {
                    if i < 754 {
                        ('\u{2c84}', '\u{2c85}')
                    } else {
                        if i < 755 {
                            ('\u{2c86}', '\u{2c87}')
                        } else {
                            ('\u{2c88}', '\u{2c89}')
                        }
                    }
                }
            } else {
                if i < 759 {
                    if i < 757 {
                        ('\u{2c8a}', '\u{2c8b}')
                    } else {
                        if i < 758 {
                            ('\u{2c8c}', '\u{2c8d}')
                        } else {
                            ('\u{2c8e}', '\u{2c8f}')
                        }
                    }
                } else {
                    if i < 760 {
                        ('\u{2c90}', '\u{2c91}')
                    } else {
                        if i < 761 {
                            ('\u{2c92}', '\u{2c93}')
                        } else {
                            ('\u{2c94}', '\u{2c95}')
                        }
                    }
                }
            }
        } else {
            if i < 768 {
                if i < 765 {
                    if i < 763 {
                        ('\u{2c96}', '\u{2c97}')
                    } else {
                        if i < 764 {
                            ('\u{2c98}', '\u{2c99}')
                        } else {
                            ('\u{2c9a}', '\u{2c9b}')
                        }
                    }
                } else {
                    if i < 766 {
                        ('\u{2c9c}', '\u{2c9d}')
                    } else {
                        if i < 767 {
                            ('\u{2c9e}', '\u{2c9f}')
                        } else {
                            ('\u{2ca0}', '\u{2ca1}')
                        }
                    }
                }
            } else {
                if i < 771 {
                    if i < 769 {
                        ('\u{2ca2}', '\u{2ca3}')
                    } else {
                        if i < 770 {
                            ('\u{2ca4}', '\u{2ca5}')
                        } else {
                            ('\u{2ca6}', '\u{2ca7}')
                        }
                    }
                } else {
                    if i < 773 {
                        if i < 772 {
                            ('\u{2ca8}', '\u{2ca9}')
                        } else {
                            ('\u{2caa}', '\u{2cab}')
                        }
                    } else {
                        if i < 774 {
                            ('\u{2cac}', '\u{2cad}')
                        } else {
                            ('\u{2cae}', '\u{2caf}')
                        }
                    }
                }
            }
        }
    } else {
        if i < 787 {
            if i < 781 {
                if i < 778 {
                    if i < 776 {
                        ('\u{2cb0}', '\u{2cb1}')
                    } else {
                        if i < 777 {
                            ('\u{2cb2}', '\u{2cb3}')
                        } else {
                            ('\u{2cb4}', '\u{2cb5}')
                        }
                    }
                } else {
                    if i < 779 {
                        ('\u{2cb6}', '\u{2cb7}')
                    } else {
                        if i < 780 {
                            ('\u{2cb8}', '\u{2cb9}')
                        } else {
                            ('\u{2cba}', '\u{2cbb}')
                        }
                    }
                }
            } else {
                if i < 784 {
                    if i < 782 {
                        ('\u{2cbc}', '\u{2cbd}')
                    } else {
                        if i < 783 {
                            ('\u{2cbe}', '\u{2cbf}')
                        } else {
                            ('\u{2cc0}', '\u{2cc1}')
                        }
                    }
                } else {
                    if i < 785 {
                        ('\u{2cc2}', '\u{2cc3}')
                    } else {
                        if i < 786 {
                            ('\u{2cc4}', '\u{2cc5}')
                        } else {
                            ('\u{2cc6}', '\u{2cc7}')
                        }
                    }
                }
            }
        } else {
            if i < 793 {
                if i < 790 {
                    if i < 788 {
                        ('\u{2cc8}', '\u{2cc9}')
                    } else {
                        if i < 789 {
                            ('\u{2cca}', '\u{2ccb}')
                        } else {
                            ('\u{2ccc}', '\u{2ccd}')
                        }
                    }
                } else {
                    if i < 791 {
                        ('\u{2cce}', '\u{2ccf}')
                    } else {
                        if i < 792 {
                            ('\u{2cd0}', '\u{2cd1}')
                        } else {
                            ('\u{2cd2}', '\u{2cd3}')
                        }
                    }
                }
            } else {
                if i < 796 {
                    if i < 794 {
                        ('\u{2cd4}', '\u{2cd5}')
                    } else {
                        if i < 795 {
                            ('\u{2cd6}', '\u{2cd7}')
                        } else {
                            ('\u{2cd8}', '\u{2cd9}')
                        }
                    }
                } else {
                    if i < 798 {
                        if i < 797 {
                            ('\u{2cda}', '\u{2cdb}')
                        } else {
                            ('\u{2cdc}', '\u{2cdd}')
                        }
                    } else {
                        if i < 799 {
                            ('\u{2cde}', '\u{2cdf}')
                        } else {
                            ('\u{2ce0}', '\u{2ce1}')
                        }
                    }
                }
            }
        }
    }
}

pub open spec fn pair_block16(i: int) -> (char, char) {
    if i < 825 {
        if i < 812 {
            if i < 806 {
                if i < 803 {
                    if i < 801 {
                        ('\u{2ce2}', '\u{2ce3}')
                    } else {
                        if i < 802 {
                            ('\u{ff21}', '\u{ff41}')
                        } else {
                            ('\u{ff22}', '\u{ff42}')
                        }
                    }
                } else {
                    if i < 804 {
                        ('\u{ff23}', '\u{ff43}')
                    } else {
                        if i < 805 {
                            ('\u{ff24}', '\u{ff44}')
                        } else {
                            ('\u{ff25}', '\u{ff45}')
                        }
                    }
                }
            } else {
                if i < 809 {
                    if i < 807 {
                        ('\u{ff26}', '\u{ff46}')
                    } else {
                        if i < 808 {
                            ('\u{ff27}', '\u{ff47}')
                        } else {
                            ('\u{ff28}', '\u{ff48}')
                        }
                    }
                } else {
                    if i < 810 {
                        ('\u{ff29}', '\u{ff49}')
                    } else {
                        if i < 811 {
                            ('\u{ff2a}', '\u{ff4a}')
                        } else {
                            ('\u{ff2b}', '\u{ff4b}')
                        }
                    }
                }
            }
        } else {
            if i < 818 {
                if i < 815 {
                    if i < 813 {
                        ('\u{ff2c}', '\u{ff4c}')
                    } else {
                        if i < 814 {
                            ('\u{ff2d}', '\u{ff4d}')
                        } else {
                            ('\u{ff2e}', '\u{ff4e}')
                        }
                    }
                } else {
                    if i < 816 {
                        ('\u{ff2f}', '\u{ff4f}')
                    } else {
                        if i < 817 {
                            ('\u{ff30}', '\u{ff50}')
                        } else {
                            ('\u{ff31}', '\u{ff51}')
                        }
                    }
                }
            } else {
                if i < 821 {
                    if i < 819 {
                        ('\u{ff32}', '\u{ff52}')
                    } else {
                        if i < 820 {
                            ('\u{ff33}', '\u{ff53}')
                        } else {
                            ('\u{ff34}', '\u{ff54}')
                        }
                    }
                } else {
                    if i < 823 {
                        if i < 822 {
                            ('\u{ff35}', '\u{ff55}')
                        } else {
                            ('\u{ff36}', '\u{ff56}')
                        }
                    } else {
                        if i < 824 {
                            ('\u{ff37}', '\u{ff57}')
                        } else {
                            ('\u{ff38}', '\u{ff58}')
                        }
                    }
                }
            }
        }
    } else {
        if i < 837 {
            if i < 831 {
                if i < 828 {
                    if i < 826 {
                        ('\u{ff39}', '\u{ff59}')
                    } else {
                        if i < 827 {
                            ('\u{ff3a}', '\u{ff5a}')
                        } else {
                            ('\u{10400}', '\u{10428}')
                        }
                    }
                } else {
                    if i < 829 {
                        ('\u{10401}', '\u{10429}')
                    } else {
                        if i < 830 {
                            ('\u{10402}', '\u{1042a}')
                        } else {
                            ('\u{10403}', '\u{1042b}')
                        }
                    }
                }
            } else {
                if i < 834 {
                    if i < 832 {
                        ('\u{10404}', '\u{1042c}')
                    } else {
                        if i < 833 {
                            ('\u{10405}', '\u{1042d}')
                        } else {
                            ('\u{10406}', '\u{1042e}')
                        }
                    }
                } else {
                    if i < 835 {
                        ('\u{10407}', '\u{1042f}')
                    } else {
                        if i < 836 {
                            ('\u{10408}', '\u{10430}')
                        } else {
                            ('\u{10409}', '\u{10431}')
                        }
                    }
                }
            }
        } else {
            if i < 843 {
                if i < 840 {
                    if i < 838 {
                        ('\u{1040a}', '\u{10432}')
                    } else {
                        if i < 839 {
                            ('\u{1040b}', '\u{10433}')
                        } else {
                            ('\u{1040c}', '\u{10434}')
                        }
                    }
                } else {
                    if i < 841 {
                        ('\u{1040d}', '\u{10435}')
                    } else {
                        if i < 842 {
                            ('\u{1040e}', '\u{10436}')
                        } else {
                            ('\u{1040f}', '\u{10437}')
                        }
                    }
                }
            } else {
                if i < 846 {
                    if i < 844 {
                        ('\u{10410}', '\u{10438}')
                    } else {
                        if i < 845 {
                            ('\u{10411}', '\u{10439}')
                        } else {
                            ('\u{10412}', '\u{1043a}')
                        }
                    }
                } else {
                    if i < 848 {
                        if i < 847 {
                            ('\u{10413}', '\u{1043b}')
                        } else {
                            ('\u{10414}', '\u{1043c}')
                        }
                    } else {
                        if i < 849 {
                            ('\u{10415}', '\u{1043d}')
                        } else {
                            ('\u{10416}', '\u{1043e}')
                        }
                    }
                }
            }
        }
    }
}

pub open spec fn pair_block17(i: int) -> (char, char) {
    if i < 858 {
        if i < 854 {
            if i < 852 {
                if i < 851 {
                    ('\u{10417}', '\u{1043f}')
                } else {
                    ('\u{10418}', '\u{10440}')
                }
            } else {
                if i < 853 {
                    ('\u{10419}', '\u{10441}')
                } else {
                    ('\u{1041a}', '\u{10442}')
                }
            }
        } else {
            if i < 856 {
                if i < 855 {
                    ('\u{1041b}', '\u{10443}')
                } else {
                    ('\u{1041c}', '\u{10444}')
                }
            } else {
                if i < 857 {
                    ('\u{1041d}', '\u{10445}')
                } else {
                    ('\u{1041e}', '\u{10446}')
                }
            }
        }
    } else {
        if i < 862 {
            if i < 860 {
                if i < 859 {
                    ('\u{1041f}', '\u{10447}')
                } else {
                    ('\u{10420}', '\u{10448}')
                }
            } else {
                if i < 861 {
                    ('\u{10421}', '\u{10449}')
                } else {
                    ('\u{10422}', '\u{1044a}')
                }
            }
        } else {
            if i < 864 {
                if i < 863 {
                    ('\u{10423}', '\u{1044b}')
                } else {
                    ('\u{10424}', '\u{1044c}')
                }
            } else {
                if i < 865 {
                    ('\u{10425}', '\u{1044d}')
                } else {
                    if i < 866 {
                        ('\u{10426}', '\u{1044e}')
                    } else {
                        ('\u{10427}', '\u{1044f}')
                    }
                }
            }
        }
    }
}

/// Entry `i` of the mapping: its upper-case and lower-case codepoints.
pub open spec fn pair_at(i: int) -> (char, char) {
    if i < 450 {
        if i < 200 {
            if i < 100 {
                if i < 50 {
                    pair_block00(i)
                } else {
                    pair_block01(i)
                }
            } else {
                if i < 150 {
                    pair_block02(i)
                } else {
                    pair_block03(i)
                }
            }
        } else {
            if i < 300 {
                if i < 250 {
                    pair_block04(i)
                } else {
                    pair_block05(i)
                }
            } else {
                if i < 350 {
                    pair_block06(i)
                } else {
                    if i < 400 {
                        pair_block07(i)
                    } else {
                        pair_block08(i)
                    }
                }
            }
        }
    } else {
        if i < 650 {
            if i < 550 {
                if i < 500 {
                    pair_block09(i)
                } else {
                    pair_block10(i)
                }
            } else {
                if i < 600 {
                    pair_block11(i)
                } else {
                    pair_block12(i)
                }
            }
        } else {
            if i < 750 {
                if i < 700 {
                    pair_block13(i)
                } else {
                    pair_block14(i)
                }
            } else {
                if i < 800 {
                    pair_block15(i)
                } else {
                    if i < 850 {
                        pair_block16(i)
                    } else {
                        pair_block17(i)
                    }
                }
            }
        }
    }
}

/// The whole mapping, ordered by ascending upper codepoint.
pub open spec fn table() -> Seq<(char, char)> {
    Seq::new(867, |i: int| pair_at(i))
}

/// The upper-case codepoint of entry `i`.
pub open spec fn upper_at(i: int) -> char {
    table()[i].0
}

/// The lower-case codepoint of entry `i`.
pub open spec fn lower_at(i: int) -> char {
    table()[i].1
}

// For entry `i`, the position of `lower_at(i)` relative to the (sorted) upper
// column: uppers at or below `gap_at(i)` lie strictly below the lower, uppers
// above it lie strictly above.  Together with sortedness this shows that no
// lower-case value of the table is itself an upper-case key.
pub open spec fn gap_block00(i: int) -> int {
    if i < 25 {
        if i < 12 {
            if i < 6 {
                if i < 3 {
                    if i < 1 {
                        29
                    } else {
                        if i < 2 {
                            29
                        } else {
                            29
                        }
                    }
                } else {
                    if i < 4 {
                        29
                    } else {
                        if i < 5 {
                            29
                        } else {
                            29
                        }
                    }
                }
            } else {
                if i < 9 {
                    if i < 7 {
                        29
                    } else {
                        if i < 8 {
                            29
                        } else {
                            29
                        }
                    }
                } else {
                    if i < 10 {
                        29
                    } else {
                        if i < 11 {
                            29
                        } else {
                            29
                        }
                    }
                }
            }
        } else {
            if i < 18 {
                if i < 15 {
                    if i < 13 {
                        29
                    } else {
                        if i < 14 {
                            29
                        } else {
                            29
                        }
                    }
                } else {
                    if i < 16 {
                        29
                    } else {
                        if i < 17 {
                            29
                        } else {
                            29
                        }
                    }
                }
            } else {
                if i < 21 {
                    if i < 19 {
                        29
                    } else {
                        if i < 20 {
                            29
                        } else {
                            29
                        }
                    }
                } else {
                    if i < 23 {
                        if i < 22 {
                            29
                        } else {
                            29
                        }
                    } else {
                        if i < 24 {
                            29
                        } else {
                            29
                        }
                    }
                }
            }
        }
    } else {
        if i < 37 {
            if i < 31 {
                if i < 28 {
                    if i < 26 {
                        29
                    } else {
                        if i < 27 {
                            29
                        } else {
                            29
                        }
                    }
                } else {
                    if i < 29 {
                        29
                    } else {
                        if i < 30 {
                            29
                        } else {
                            30
                        }
                    }
                }
            } else {
                if i < 34 {
                    if i < 32 {
                        31
                    } else {
                        if i < 33 {
                            32
                        } else {
                            33
                        }
                    }
                } else {
                    if i < 35 {
                        34
                    } else {
                        if i < 36 {
                            35
                        } else {
                            36
                        }
                    }
                }
            }
        } else {
            if i < 43 {
                if i < 40 {
                    if i < 38 {
                        37
                    } else {
                        if i < 39 {
                            38
                        } else {
                            39
                        }
                    }
                } else {
                    if i < 41 {
                        40
                    } else {
                        if i < 42 {
                            41
                        } else {
                            42
                        }
                    }
                }
            } else {
                if i < 46 {
                    if i < 44 {
                        43
                    } else {
                        if i < 45 {
                            44
                        } else {
                            45
                        }
                    }
                } else {
                    if i < 48 {
                        if i < 47 {
                            46
                        } else {
                            47
                        }
                    } else {
                        if i < 49 {
                            48
                        } else {
                            49
                        }
                    }
                }
            }
        }
    }
}

pub open spec fn gap_block01(i: int) -> int {
    if i < 75 {
        if i < 62 {
            if i < 56 {
                if i < 53 {
                    if i < 51 {
                        50
                    } else {
                        if i < 52 {
                            51
                        } else {
                            52
                        }
                    }
                } else {
                    if i < 54 {
                        53
                    } else {
                        if i < 55 {
                            -1
                        } else {
                            55
                        }
                    }
                }
            } else {
                if i < 59 {
                    if i < 57 {
                        56
                    } else {
                        if i < 58 {
                            57
                        } else {
                            58
                        }
                    }
                } else {
                    if i < 60 {
                        59
                    } else {
                        if i < 61 {
                            60
                        } else {
                            61
                        }
                    }
                }
            }
        } else {
            if i < 68 {
                if i < 65 {
                    if i < 63 {
                        62
                    } else {
                        if i < 64 {
                            63
                        } else {
                            64
                        }
                    }
                } else {
                    if i < 66 {
                        65
                    } else {
                        if i < 67 {
                            66
                        } else {
                            67
                        }
                    }
                }
            } else {
                if i < 71 {
                    if i < 69 {
                        68
                    } else {
                        if i < 70 {
                            69
                        } else {
                            70
                        }
                    }
                } else {
                    if i < 73 {
                        if i < 72 {
                            71
                        } else {
                            72
                        }
                    } else {
                        if i < 74 {
                            73
                        } else {
                            74
                        }
                    }
                }
            }
        }
    } else {
        if i < 87 {
            if i < 81 {
                if i < 78 {
                    if i < 76 {
                        75
                    } else {
                        if i < 77 {
                            76
                        } else {
                            77
                        }
                    }
                } else {
                    if i < 79 {
                        78
                    } else {
                        if i < 80 {
                            79
                        } else {
                            80
                        }
                    }
                }
            } else {
                if i < 84 {
                    if i < 82 {
                        81
                    } else {
                        if i < 83 {
                            82
                        } else {
                            83
                        }
                    }
                } else {
                    if i < 85 {
                        84
                    } else {
                        if i < 86 {
                            85
                        } else {
                            86
                        }
                    }
                }
            }
        } else {
            if i < 93 {
                if i < 90 {
                    if i < 88 {
                        87
                    } else {
                        if i < 89 {
                            88
                        } else {
                            29
                        }
                    }
                } else {
                    if i < 91 {
                        90
                    } else {
                        if i < 92 {
                            91
                        } else {
                            92
                        }
                    }
                }
            } else {
                if i < 96 {
                    if i < 94 {
                        188
                    } else {
                        if i < 95 {
                            94
                        } else {
                            95
                        }
                    }
                } else {
                    if i < 98 {
                        if i < 97 {
                            188
                        } else {
                            97
                        }
                    } else {
                        if i < 99 {
                            188
                        } else {
                            188
                        }
                    }
                }
            }
        }
    }
}

pub open spec fn gap_block02(i: int) -> int {
    if i < 125 {
        if i < 112 {
            if i < 106 {
                if i < 103 {
                    if i < 101 {
                        100
                    } else {
                        if i < 102 {
                            142
                        } else {
                            188
                        }
                    }
                } else {
                    if i < 104 {
                        188
                    } else {
                        if i < 105 {
                            104
                        } else {
                            188
                        }
                    }
                }
            } else {
                if i < 109 {
                    if i < 107 {
                        188
                    } else {
                        if i < 108 {
                            188
                        } else {
                            188
                        }
                    }
                } else {
                    if i < 110 {
                        109
                    } else {
                        if i < 111 {
                            188
                        } else {
                            188
                        }
                    }
                }
            }
        } else {
            if i < 118 {
                if i < 115 {
                    if i < 113 {
                        188
                    } else {
                        if i < 114 {
                            113
                        } else {
                            114
                        }
                    }
                } else {
                    if i < 116 {
                        115
                    } else {
                        if i < 117 {
                            188
                        } else {
                            117
                        }
                    }
                }
            } else {
                if i < 121 {
                    if i < 119 {
                        188
                    } else {
                        if i < 120 {
                            119
                        } else {
                            188
                        }
                    }
                } else {
                    if i < 123 {
                        if i < 122 {
                            121
                        } else {
                            188
                        }
                    } else {
                        if i < 124 {
                            188
                        } else {
                            124
                        }
                    }
                }
            }
        }
    } else {
        if i < 137 {
            if i < 131 {
                if i < 128 {
                    if i < 126 {
                        125
                    } else {
                        if i < 127 {
                            188
                        } else {
                            127
                        }
                    }
                } else {
                    if i < 129 {
                        128
                    } else {
                        if i < 130 {
                            130
                        } else {
                            130
                        }
                    }
                }
            } else {
                if i < 134 {
                    if i < 132 {
                        132
                    } else {
                        if i < 133 {
                            132
                        } else {
                            134
                        }
                    }
                } else {
                    if i < 135 {
                        134
                    } else {
                        if i < 136 {
                            135
                        } else {
                            136
                        }
                    }
                }
            }
        } else {
            if i < 143 {
                if i < 140 {
                    if i < 138 {
                        137
                    } else {
                        if i < 139 {
                            138
                        } else {
                            139
                        }
                    }
                } else {
                    if i < 141 {
                        140
                    } else {
                        if i < 142 {
                            141
                        } else {
                            142
                        }
                    }
                }
            } else {
                if i < 146 {
                    if i < 144 {
                        143
                    } else {
                        if i < 145 {
                            144
                        } else {
                            145
                        }
                    }
                } else {
                    if i < 148 {
                        if i < 147 {
                            146
                        } else {
                            147
                        }
                    } else {
                        if i < 149 {
                            148
                        } else {
                            149
                        }
                    }
                }
            }
        }
    }
}

pub open spec fn gap_block03(i: int) -> int {
    if i < 175 {
        if i < 162 {
            if i < 156 {
                if i < 153 {
                    if i < 151 {
                        150
                    } else {
                        if i < 152 {
                            151
                        } else {
                            153
                        }
                    }
                } else {
                    if i < 154 {
                        153
                    } else {
                        if i < 155 {
                            154
                        } else {
                            106
                        }
                    }
                }
            } else {
                if i < 159 {
                    if i < 157 {
                        128
                    } else {
                        if i < 158 {
                            157
                        } else {
                            158
                        }
                    }
                } else {
                    if i < 160 {
                        159
                    } else {
                        if i < 161 {
                            160
                        } else {
                            161
                        }
                    }
                }
            }
        } else {
            if i < 168 {
                if i < 165 {
                    if i < 163 {
                        162
                    } else {
                        if i < 164 {
                            163
                        } else {
                            164
                        }
                    }
                } else {
                    if i < 166 {
                        165
                    } else {
                        if i < 167 {
                            166
                        } else {
                            167
                        }
                    }
                }
            } else {
                if i < 171 {
                    if i < 169 {
                        168
                    } else {
                        if i < 170 {
                            169
                        } else {
                            170
                        }
                    }
                } else {
                    if i < 173 {
                        if i < 172 {
                            171
                        } else {
                            172
                        }
                    } else {
                        if i < 174 {
                            173
                        } else {
                            174
                        }
                    }
                }
            }
        }
    } else {
        if i < 187 {
            if i < 181 {
                if i < 178 {
                    if i < 176 {
                        175
                    } else {
                        if i < 177 {
                            176
                        } else {
                            111
                        }
                    }
                } else {
                    if i < 179 {
                        178
                    } else {
                        if i < 180 {
                            179
                        } else {
                            180
                        }
                    }
                }
            } else {
                if i < 184 {
                    if i < 182 {
                        181
                    } else {
                        if i < 183 {
                            182
                        } else {
                            183
                        }
                    }
                } else {
                    if i < 185 {
                        184
                    } else {
                        if i < 186 {
                            185
                        } else {
                            186
                        }
                    }
                }
            }
        } else {
            if i < 193 {
                if i < 190 {
                    if i < 188 {
                        187
                    } else {
                        if i < 189 {
                            109
                        } else {
                            222
                        }
                    }
                } else {
                    if i < 191 {
                        222
                    } else {
                        if i < 192 {
                            222
                        } else {
                            222
                        }
                    }
                }
            } else {
                if i < 196 {
                    if i < 194 {
                        222
                    } else {
                        if i < 195 {
                            222
                        } else {
                            222
                        }
                    }
                } else {
                    if i < 198 {
                        if i < 197 {
                            222
                        } else {
                            222
                        }
                    } else {
                        if i < 199 {
                            222
                        } else {
                            222
                        }
                    }
                }
            }
        }
    }
}

pub open spec fn gap_block04(i: int) -> int {
    if i < 225 {
        if i < 212 {
            if i < 206 {
                if i < 203 {
                    if i < 201 {
                        222
                    } else {
                        if i < 202 {
                            222
                        } else {
                            222
                        }
                    }
                } else {
                    if i < 204 {
                        222
                    } else {
                        if i < 205 {
                            222
                        } else {
                            222
                        }
                    }
                }
            } else {
                if i < 209 {
                    if i < 207 {
                        222
                    } else {
                        if i < 208 {
                            222
                        } else {
                            222
                        }
                    }
                } else {
                    if i < 210 {
                        222
                    } else {
                        if i < 211 {
                            222
                        } else {
                            222
                        }
                    }
                }
            }
        } else {
            if i < 218 {
                if i < 215 {
                    if i < 213 {
                        222
                    } else {
                        if i < 214 {
                            222
                        } else {
                            222
                        }
                    }
                } else {
                    if i < 216 {
                        222
                    } else {
                        if i < 217 {
                            222
                        } else {
                            222
                        }
                    }
                }
            } else {
                if i < 221 {
                    if i < 219 {
                        222
                    } else {
                        if i < 220 {
                            222
                        } else {
                            222
                        }
                    }
                } else {
                    if i < 223 {
                        if i < 222 {
                            222
                        } else {
                            222
                        }
                    } else {
                        if i < 224 {
                            223
                        } else {
                            224
                        }
                    }
                }
            }
        }
    } else {
        if i < 237 {
            if i < 231 {
                if i < 228 {
                    if i < 226 {
                        225
                    } else {
                        if i < 227 {
                            226
                        } else {
                            227
                        }
                    }
                } else {
                    if i < 229 {
                        228
                    } else {
                        if i < 230 {
                            229
                        } else {
                            230
                        }
                    }
                }
            } else {
                if i < 234 {
                    if i < 232 {
                        231
                    } else {
                        if i < 233 {
                            232
                        } else {
                            233
                        }
                    }
                } else {
                    if i < 235 {
                        234
                    } else {
                        if i < 236 {
                            222
                        } else {
                            236
                        }
                    }
                }
            }
        } else {
            if i < 243 {
                if i < 240 {
                    if i < 238 {
                        234
                    } else {
                        if i < 239 {
                            238
                        } else {
                            286
                        }
                    }
                } else {
                    if i < 241 {
                        286
                    } else {
                        if i < 242 {
                            286
                        } else {
                            286
                        }
                    }
                }
            } else {
                if i < 246 {
                    if i < 244 {
                        286
                    } else {
                        if i < 245 {
                            286
                        } else {
                            286
                        }
                    }
                } else {
                    if i < 248 {
                        if i < 247 {
                            286
                        } else {
                            286
                        }
                    } else {
                        if i < 249 {
                            286
                        } else {
                            286
                        }
                    }
                }
            }
        }
    }
}

pub open spec fn gap_block05(i: int) -> int {
    if i < 275 {
        if i < 262 {
            if i < 256 {
                if i < 253 {
                    if i < 251 {
                        286
                    } else {
                        if i < 252 {
                            286
                        } else {
                            286
                        }
                    }
                } else {
                    if i < 254 {
                        286
                    } else {
                        if i < 255 {
                            286
                        } else {
                            286
                        }
                    }
                }
            } else {
                if i < 259 {
                    if i < 257 {
                        286
                    } else {
                        if i < 258 {
                            286
                        } else {
                            286
                        }
                    }
                } else {
                    if i < 260 {
                        286
                    } else {
                        if i < 261 {
                            286
                        } else {
                            286
                        }
                    }
                }
            }
        } else {
            if i < 268 {
                if i < 265 {
                    if i < 263 {
                        286
                    } else {
                        if i < 264 {
                            286
                        } else {
                            286
                        }
                    }
                } else {
                    if i < 266 {
                        286
                    } else {
                        if i < 267 {
                            286
                        } else {
                            286
                        }
                    }
                }
            } else {
                if i < 271 {
                    if i < 269 {
                        286
                    } else {
                        if i < 270 {
                            286
                        } else {
                            286
                        }
                    }
                } else {
                    if i < 273 {
                        if i < 272 {
                            286
                        } else {
                            286
                        }
                    } else {
                        if i < 274 {
                            286
                        } else {
                            286
                        }
                    }
                }
            }
        }
    } else {
        if i < 287 {
            if i < 281 {
                if i < 278 {
                    if i < 276 {
                        286
                    } else {
                        if i < 277 {
                            286
                        } else {
                            286
                        }
                    }
                } else {
                    if i < 279 {
                        286
                    } else {
                        if i < 280 {
                            286
                        } else {
                            286
                        }
                    }
                }
            } else {
                if i < 284 {
                    if i < 282 {
                        286
                    } else {
                        if i < 283 {
                            286
                        } else {
                            286
                        }
                    }
                } else {
                    if i < 285 {
                        286
                    } else {
                        if i < 286 {
                            286
                        } else {
                            286
                        }
                    }
                }
            }
        } else {
            if i < 293 {
                if i < 290 {
                    if i < 288 {
                        287
                    } else {
                        if i < 289 {
                            288
                        } else {
                            289
                        }
                    }
                } else {
                    if i < 291 {
                        290
                    } else {
                        if i < 292 {
                            291
                        } else {
                            292
                        }
                    }
                }
            } else {
                if i < 296 {
                    if i < 294 {
                        293
                    } else {
                        if i < 295 {
                            294
                        } else {
                            295
                        }
                    }
                } else {
                    if i < 298 {
                        if i < 297 {
                            296
                        } else {
                            297
                        }
                    } else {
                        if i < 299 {
                            298
                        } else {
                            299
                        }
                    }
                }
            }
        }
    }
}

pub open spec fn gap_block06(i: int) -> int {
    if i < 325 {
        if i < 312 {
            if i < 306 {
                if i < 303 {
                    if i < 301 {
                        300
                    } else {
                        if i < 302 {
                            301
                        } else {
                            302
                        }
                    }
                } else {
                    if i < 304 {
                        303
                    } else {
                        if i < 305 {
                            304
                        } else {
                            305
                        }
                    }
                }
            } else {
                if i < 309 {
                    if i < 307 {
                        306
                    } else {
                        if i < 308 {
                            307
                        } else {
                            308
                        }
                    }
                } else {
                    if i < 310 {
                        309
                    } else {
                        if i < 311 {
                            310
                        } else {
                            311
                        }
                    }
                }
            }
        } else {
            if i < 318 {
                if i < 315 {
                    if i < 313 {
                        312
                    } else {
                        if i < 314 {
                            313
                        } else {
                            314
                        }
                    }
                } else {
                    if i < 316 {
                        315
                    } else {
                        if i < 317 {
                            316
                        } else {
                            317
                        }
                    }
                }
            } else {
                if i < 321 {
                    if i < 319 {
                        318
                    } else {
                        if i < 320 {
                            319
                        } else {
                            320
                        }
                    }
                } else {
                    if i < 323 {
                        if i < 322 {
                            321
                        } else {
                            322
                        }
                    } else {
                        if i < 324 {
                            323
                        } else {
                            324
                        }
                    }
                }
            }
        }
    } else {
        if i < 337 {
            if i < 331 {
                if i < 328 {
                    if i < 326 {
                        325
                    } else {
                        if i < 327 {
                            326
                        } else {
                            327
                        }
                    }
                } else {
                    if i < 329 {
                        328
                    } else {
                        if i < 330 {
                            329
                        } else {
                            330
                        }
                    }
                }
            } else {
                if i < 334 {
                    if i < 332 {
                        331
                    } else {
                        if i < 333 {
                            332
                        } else {
                            333
                        }
                    }
                } else {
                    if i < 335 {
                        334
                    } else {
                        if i < 336 {
                            335
                        } else {
                            336
                        }
                    }
                }
            }
        } else {
            if i < 343 {
                if i < 340 {
                    if i < 338 {
                        337
                    } else {
                        if i < 339 {
                            338
                        } else {
                            339
                        }
                    }
                } else {
                    if i < 341 {
                        340
                    } else {
                        if i < 342 {
                            341
                        } else {
                            342
                        }
                    }
                }
            } else {
                if i < 346 {
                    if i < 344 {
                        343
                    } else {
                        if i < 345 {
                            344
                        } else {
                            345
                        }
                    }
                } else {
                    if i < 348 {
                        if i < 347 {
                            346
                        } else {
                            347
                        }
                    } else {
                        if i < 349 {
                            348
                        } else {
                            349
                        }
                    }
                }
            }
        }
    }
}

pub open spec fn gap_block07(i: int) -> int {
    if i < 375 {
        if i < 362 {
            if i < 356 {
                if i < 353 {
                    if i < 351 {
                        350
                    } else {
                        if i < 352 {
                            351
                        } else {
                            352
                        }
                    }
                } else {
                    if i < 354 {
                        353
                    } else {
                        if i < 355 {
                            354
                        } else {
                            355
                        }
                    }
                }
            } else {
                if i < 359 {
                    if i < 357 {
                        356
                    } else {
                        if i < 358 {
                            357
                        } else {
                            358
                        }
                    }
                } else {
                    if i < 360 {
                        359
                    } else {
                        if i < 361 {
                            360
                        } else {
                            361
                        }
                    }
                }
            }
        } else {
            if i < 368 {
                if i < 365 {
                    if i < 363 {
                        362
                    } else {
                        if i < 364 {
                            363
                        } else {
                            364
                        }
                    }
                } else {
                    if i < 366 {
                        365
                    } else {
                        if i < 367 {
                            366
                        } else {
                            404
                        }
                    }
                }
            } else {
                if i < 371 {
                    if i < 369 {
                        404
                    } else {
                        if i < 370 {
                            404
                        } else {
                            404
                        }
                    }
                } else {
                    if i < 373 {
                        if i < 372 {
                            404
                        } else {
                            404
                        }
                    } else {
                        if i < 374 {
                            404
                        } else {
                            404
                        }
                    }
                }
            }
        }
    } else {
        if i < 387 {
            if i < 381 {
                if i < 378 {
                    if i < 376 {
                        404
                    } else {
                        if i < 377 {
                            404
                        } else {
                            404
                        }
                    }
                } else {
                    if i < 379 {
                        404
                    } else {
                        if i < 380 {
                            404
                        } else {
                            404
                        }
                    }
                }
            } else {
                if i < 384 {
                    if i < 382 {
                        404
                    } else {
                        if i < 383 {
                            404
                        } else {
                            404
                        }
                    }
                } else {
                    if i < 385 {
                        404
                    } else {
                        if i < 386 {
                            404
                        } else {
                            404
                        }
                    }
                }
            }
        } else {
            if i < 393 {
                if i < 390 {
                    if i < 388 {
                        404
                    } else {
                        if i < 389 {
                            404
                        } else {
                            404
                        }
                    }
                } else {
                    if i < 391 {
                        404
                    } else {
                        if i < 392 {
                            404
                        } else {
                            404
                        }
                    }
                }
            } else {
                if i < 396 {
                    if i < 394 {
                        404
                    } else {
                        if i < 395 {
                            404
                        } else {
                            404
                        }
                    }
                } else {
                    if i < 398 {
                        if i < 397 {
                            404
                        } else {
                            404
                        }
                    } else {
                        if i < 399 {
                            404
                        } else {
                            404
                        }
                    }
                }
            }
        }
    }
}

pub open spec fn gap_block08(i: int) -> int {
    if i < 425 {
        if i < 412 {
            if i < 406 {
                if i < 403 {
                    if i < 401 {
                        404
                    } else {
                        if i < 402 {
                            404
                        } else {
                            404
                        }
                    }
                } else {
                    if i < 404 {
                        404
                    } else {
                        if i < 405 {
                            404
                        } else {
                            800
                        }
                    }
                }
            } else {
                if i < 409 {
                    if i < 407 {
                        800
                    } else {
                        if i < 408 {
                            800
                        } else {
                            800
                        }
                    }
                } else {
                    if i < 410 {
                        800
                    } else {
                        if i < 411 {
                            800
                        } else {
                            800
                        }
                    }
                }
            }
        } else {
            if i < 418 {
                if i < 415 {
                    if i < 413 {
                        800
                    } else {
                        if i < 414 {
                            800
                        } else {
                            800
                        }
                    }
                } else {
                    if i < 416 {
                        800
                    } else {
                        if i < 417 {
                            800
                        } else {
                            800
                        }
                    }
                }
            } else {
                if i < 421 {
                    if i < 419 {
                        800
                    } else {
                        if i < 420 {
                            800
                        } else {
                            800
                        }
                    }
                } else {
                    if i < 423 {
                        if i < 422 {
                            800
                        } else {
                            800
                        }
                    } else {
                        if i < 424 {
                            800
                        } else {
                            800
                        }
                    }
                }
            }
        }
    } else {
        if i < 437 {
            if i < 431 {
                if i < 428 {
                    if i < 426 {
                        800
                    } else {
                        if i < 427 {
                            800
                        } else {
                            800
                        }
                    }
                } else {
                    if i < 429 {
                        800
                    } else {
                        if i < 430 {
                            800
                        } else {
                            800
                        }
                    }
                }
            } else {
                if i < 434 {
                    if i < 432 {
                        800
                    } else {
                        if i < 433 {
                            800
                        } else {
                            800
                        }
                    }
                } else {
                    if i < 435 {
                        800
                    } else {
                        if i < 436 {
                            800
                        } else {
                            800
                        }
                    }
                }
            }
        } else {
            if i < 443 {
                if i < 440 {
                    if i < 438 {
                        800
                    } else {
                        if i < 439 {
                            800
                        } else {
                            800
                        }
                    }
                } else {
                    if i < 441 {
                        800
                    } else {
                        if i < 442 {
                            800
                        } else {
                            800
                        }
                    }
                }
            } else {
                if i < 446 {
                    if i < 444 {
                        443
                    } else {
                        if i < 445 {
                            444
                        } else {
                            445
                        }
                    }
                } else {
                    if i < 448 {
                        if i < 447 {
                            446
                        } else {
                            447
                        }
                    } else {
                        if i < 449 {
                            448
                        } else {
                            449
                        }
                    }
                }
            }
        }
    }
}

pub open spec fn gap_block09(i: int) -> int {
    if i < 475 {
        if i < 462 {
            if i < 456 {
                if i < 453 {
                    if i < 451 {
                        450
                    } else {
                        if i < 452 {
                            451
                        } else {
                            452
                        }
                    }
                } else {
                    if i < 454 {
                        453
                    } else {
                        if i < 455 {
                            454
                        } else {
                            455
                        }
                    }
                }
            } else {
                if i < 459 {
                    if i < 457 {
                        456
                    } else {
                        if i < 458 {
                            457
                        } else {
                            458
                        }
                    }
                } else {
                    if i < 460 {
                        459
                    } else {
                        if i < 461 {
                            460
                        } else {
                            461
                        }
                    }
                }
            }
        } else {
            if i < 468 {
                if i < 465 {
                    if i < 463 {
                        462
                    } else {
                        if i < 464 {
                            463
                        } else {
                            464
                        }
                    }
                } else {
                    if i < 466 {
                        465
                    } else {
                        if i < 467 {
                            466
                        } else {
                            467
                        }
                    }
                }
            } else {
                if i < 471 {
                    if i < 469 {
                        468
                    } else {
                        if i < 470 {
                            469
                        } else {
                            470
                        }
                    }
                } else {
                    if i < 473 {
                        if i < 472 {
                            471
                        } else {
                            472
                        }
                    } else {
                        if i < 474 {
                            473
                        } else {
                            474
                        }
                    }
                }
            }
        }
    } else {
        if i < 487 {
            if i < 481 {
                if i < 478 {
                    if i < 476 {
                        475
                    } else {
                        if i < 477 {
                            476
                        } else {
                            477
                        }
                    }
                } else {
                    if i < 479 {
                        478
                    } else {
                        if i < 480 {
                            479
                        } else {
                            480
                        }
                    }
                }
            } else {
                if i < 484 {
                    if i < 482 {
                        481
                    } else {
                        if i < 483 {
                            482
                        } else {
                            483
                        }
                    }
                } else {
                    if i < 485 {
                        484
                    } else {
                        if i < 486 {
                            485
                        } else {
                            486
                        }
                    }
                }
            }
        } else {
            if i < 493 {
                if i < 490 {
                    if i < 488 {
                        487
                    } else {
                        if i < 489 {
                            488
                        } else {
                            489
                        }
                    }
                } else {
                    if i < 491 {
                        490
                    } else {
                        if i < 492 {
                            491
                        } else {
                            492
                        }
                    }
                }
            } else {
                if i < 496 {
                    if i < 494 {
                        493
                    } else {
                        if i < 495 {
                            494
                        } else {
                            495
                        }
                    }
                } else {
                    if i < 498 {
                        if i < 497 {
                            496
                        } else {
                            497
                        }
                    } else {
                        if i < 499 {
                            498
                        } else {
                            499
                        }
                    }
                }
            }
        }
    }
}

pub open spec fn gap_block10(i: int) -> int {
    if i < 525 {
        if i < 512 {
            if i < 506 {
                if i < 503 {
                    if i < 501 {
                        500
                    } else {
                        if i < 502 {
                            501
                        } else {
                            502
                        }
                    }
                } else {
                    if i < 504 {
                        503
                    } else {
                        if i < 505 {
                            504
                        } else {
                            505
                        }
                    }
                }
            } else {
                if i < 509 {
                    if i < 507 {
                        506
                    } else {
                        if i < 508 {
                            507
                        } else {
                            508
                        }
                    }
                } else {
                    if i < 510 {
                        509
                    } else {
                        if i < 511 {
                            510
                        } else {
                            511
                        }
                    }
                }
            }
        } else {
            if i < 518 {
                if i < 515 {
                    if i < 513 {
                        512
                    } else {
                        if i < 514 {
                            513
                        } else {
                            514
                        }
                    }
                } else {
                    if i < 516 {
                        515
                    } else {
                        if i < 517 {
                            516
                        } else {
                            517
                        }
                    }
                }
            } else {
                if i < 521 {
                    if i < 519 {
                        518
                    } else {
                        if i < 520 {
                            519
                        } else {
                            520
                        }
                    }
                } else {
                    if i < 523 {
                        if i < 522 {
                            521
                        } else {
                            522
                        }
                    } else {
                        if i < 524 {
                            523
                        } else {
                            524
                        }
                    }
                }
            }
        }
    } else {
        if i < 537 {
            if i < 531 {
                if i < 528 {
                    if i < 526 {
                        525
                    } else {
                        if i < 527 {
                            526
                        } else {
                            527
                        }
                    }
                } else {
                    if i < 529 {
                        528
                    } else {
                        if i < 530 {
                            529
                        } else {
                            530
                        }
                    }
                }
            } else {
                if i < 534 {
                    if i < 532 {
                        531
                    } else {
                        if i < 533 {
                            532
                        } else {
                            533
                        }
                    }
                } else {
                    if i < 535 {
                        534
                    } else {
                        if i < 536 {
                            535
                        } else {
                            536
                        }
                    }
                }
            }
        } else {
            if i < 543 {
                if i < 540 {
                    if i < 538 {
                        537
                    } else {
                        if i < 539 {
                            538
                        } else {
                            539
                        }
                    }
                } else {
                    if i < 541 {
                        540
                    } else {
                        if i < 542 {
                            541
                        } else {
                            542
                        }
                    }
                }
            } else {
                if i < 546 {
                    if i < 544 {
                        543
                    } else {
                        if i < 545 {
                            544
                        } else {
                            545
                        }
                    }
                } else {
                    if i < 548 {
                        if i < 547 {
                            546
                        } else {
                            547
                        }
                    } else {
                        if i < 549 {
                            548
                        } else {
                            549
                        }
                    }
                }
            }
        }
    }
}

pub open spec fn gap_block11(i: int) -> int {
    if i < 575 {
        if i < 562 {
            if i < 556 {
                if i < 553 {
                    if i < 551 {
                        550
                    } else {
                        if i < 552 {
                            551
                        } else {
                            552
                        }
                    }
                } else {
                    if i < 554 {
                        553
                    } else {
                        if i < 555 {
                            554
                        } else {
                            555
                        }
                    }
                }
            } else {
                if i < 559 {
                    if i < 557 {
                        556
                    } else {
                        if i < 558 {
                            557
                        } else {
                            558
                        }
                    }
                } else {
                    if i < 560 {
                        559
                    } else {
                        if i < 561 {
                            560
                        } else {
                            561
                        }
                    }
                }
            }
        } else {
            if i < 568 {
                if i < 565 {
                    if i < 563 {
                        562
                    } else {
                        if i < 564 {
                            562
                        } else {
                            562
                        }
                    }
                } else {
                    if i < 566 {
                        562
                    } else {
                        if i < 567 {
                            562
                        } else {
                            562
                        }
                    }
                }
            } else {
                if i < 571 {
                    if i < 569 {
                        562
                    } else {
                        if i < 570 {
                            562
                        } else {
                            562
                        }
                    }
                } else {
                    if i < 573 {
                        if i < 572 {
                            570
                        } else {
                            570
                        }
                    } else {
                        if i < 574 {
                            570
                        } else {
                            570
                        }
                    }
                }
            }
        }
    } else {
        if i < 587 {
            if i < 581 {
                if i < 578 {
                    if i < 576 {
                        570
                    } else {
                        if i < 577 {
                            570
                        } else {
                            576
                        }
                    }
                } else {
                    if i < 579 {
                        576
                    } else {
                        if i < 580 {
                            576
                        } else {
                            576
                        }
                    }
                }
            } else {
                if i < 584 {
                    if i < 582 {
                        576
                    } else {
                        if i < 583 {
                            576
                        } else {
                            576
                        }
                    }
                } else {
                    if i < 585 {
                        576
                    } else {
                        if i < 586 {
                            584
                        } else {
                            584
                        }
                    }
                }
            }
        } else {
            if i < 593 {
                if i < 590 {
                    if i < 588 {
                        584
                    } else {
                        if i < 589 {
                            584
                        } else {
                            584
                        }
                    }
                } else {
                    if i < 591 {
                        584
                    } else {
                        if i < 592 {
                            584
                        } else {
                            584
                        }
                    }
                }
            } else {
                if i < 596 {
                    if i < 594 {
                        592
                    } else {
                        if i < 595 {
                            592
                        } else {
                            592
                        }
                    }
                } else {
                    if i < 598 {
                        if i < 597 {
                            592
                        } else {
                            592
                        }
                    } else {
                        if i < 599 {
                            592
                        } else {
                            598
                        }
                    }
                }
            }
        }
    }
}

pub open spec fn gap_block12(i: int) -> int {
    if i < 625 {
        if i < 612 {
            if i < 606 {
                if i < 603 {
                    if i < 601 {
                        598
                    } else {
                        if i < 602 {
                            598
                        } else {
                            598
                        }
                    }
                } else {
                    if i < 604 {
                        602
                    } else {
                        if i < 605 {
                            602
                        } else {
                            602
                        }
                    }
                }
            } else {
                if i < 609 {
                    if i < 607 {
                        602
                    } else {
                        if i < 608 {
                            602
                        } else {
                            602
                        }
                    }
                } else {
                    if i < 610 {
                        602
                    } else {
                        if i < 611 {
                            602
                        } else {
                            610
                        }
                    }
                }
            }
        } else {
            if i < 618 {
                if i < 615 {
                    if i < 613 {
                        610
                    } else {
                        if i < 614 {
                            610
                        } else {
                            610
                        }
                    }
                } else {
                    if i < 616 {
                        610
                    } else {
                        if i < 617 {
                            610
                        } else {
                            610
                        }
                    }
                }
            } else {
                if i < 621 {
                    if i < 619 {
                        610
                    } else {
                        if i < 620 {
                            618
                        } else {
                            618
                        }
                    }
                } else {
                    if i < 623 {
                        if i < 622 {
                            618
                        } else {
                            618
                        }
                    } else {
                        if i < 624 {
                            618
                        } else {
                            618
                        }
                    }
                }
            }
        }
    } else {
        if i < 637 {
            if i < 631 {
                if i < 628 {
                    if i < 626 {
                        618
                    } else {
                        if i < 627 {
                            618
                        } else {
                            626
                        }
                    }
                } else {
                    if i < 629 {
                        626
                    } else {
                        if i < 630 {
                            626
                        } else {
                            626
                        }
                    }
                }
            } else {
                if i < 634 {
                    if i < 632 {
                        626
                    } else {
                        if i < 633 {
                            626
                        } else {
                            626
                        }
                    }
                } else {
                    if i < 635 {
                        626
                    } else {
                        if i < 636 {
                            634
                        } else {
                            634
                        }
                    }
                }
            }
        } else {
            if i < 643 {
                if i < 640 {
                    if i < 638 {
                        610
                    } else {
                        if i < 639 {
                            610
                        } else {
                            634
                        }
                    }
                } else {
                    if i < 641 {
                        610
                    } else {
                        if i < 642 {
                            610
                        } else {
                            610
                        }
                    }
                }
            } else {
                if i < 646 {
                    if i < 644 {
                        610
                    } else {
                        if i < 645 {
                            639
                        } else {
                            644
                        }
                    }
                } else {
                    if i < 648 {
                        if i < 647 {
                            644
                        } else {
                            610
                        }
                    } else {
                        if i < 649 {
                            610
                        } else {
                            648
                        }
                    }
                }
            }
        }
    }
}

pub open spec fn gap_block13(i: int) -> int {
    if i < 675 {
        if i < 662 {
            if i < 656 {
                if i < 653 {
                    if i < 651 {
                        648
                    } else {
                        if i < 652 {
                            610
                        } else {
                            610
                        }
                    }
                } else {
                    if i < 654 {
                        648
                    } else {
                        if i < 655 {
                            610
                        } else {
                            610
                        }
                    }
                }
            } else {
                if i < 659 {
                    if i < 657 {
                        610
                    } else {
                        if i < 658 {
                            610
                        } else {
                            653
                        }
                    }
                } else {
                    if i < 660 {
                        222
                    } else {
                        if i < 661 {
                            -1
                        } else {
                            29
                        }
                    }
                }
            }
        } else {
            if i < 668 {
                if i < 665 {
                    if i < 663 {
                        677
                    } else {
                        if i < 664 {
                            677
                        } else {
                            677
                        }
                    }
                } else {
                    if i < 666 {
                        677
                    } else {
                        if i < 667 {
                            677
                        } else {
                            677
                        }
                    }
                }
            } else {
                if i < 671 {
                    if i < 669 {
                        677
                    } else {
                        if i < 670 {
                            677
                        } else {
                            677
                        }
                    }
                } else {
                    if i < 673 {
                        if i < 672 {
                            677
                        } else {
                            677
                        }
                    } else {
                        if i < 674 {
                            677
                        } else {
                            677
                        }
                    }
                }
            }
        }
    } else {
        if i < 687 {
            if i < 681 {
                if i < 678 {
                    if i < 676 {
                        677
                    } else {
                        if i < 677 {
                            677
                        } else {
                            677
                        }
                    }
                } else {
                    if i < 679 {
                        703
                    } else {
                        if i < 680 {
                            703
                        } else {
                            703
                        }
                    }
                }
            } else {
                if i < 684 {
                    if i < 682 {
                        703
                    } else {
                        if i < 683 {
                            703
                        } else {
                            703
                        }
                    }
                } else {
                    if i < 685 {
                        703
                    } else {
                        if i < 686 {
                            703
                        } else {
                            703
                        }
                    }
                }
            }
        } else {
            if i < 693 {
                if i < 690 {
                    if i < 688 {
                        703
                    } else {
                        if i < 689 {
                            703
                        } else {
                            703
                        }
                    }
                } else {
                    if i < 691 {
                        703
                    } else {
                        if i < 692 {
                            703
                        } else {
                            703
                        }
                    }
                }
            } else {
                if i < 696 {
                    if i < 694 {
                        703
                    } else {
                        if i < 695 {
                            703
                        } else {
                            703
                        }
                    }
                } else {
                    if i < 698 {
                        if i < 697 {
                            703
                        } else {
                            703
                        }
                    } else {
                        if i < 699 {
                            703
                        } else {
                            703
                        }
                    }
                }
            }
        }
    }
}

pub open spec fn gap_block14(i: int) -> int {
    if i < 725 {
        if i < 712 {
            if i < 706 {
                if i < 703 {
                    if i < 701 {
                        703
                    } else {
                        if i < 702 {
                            703
                        } else {
                            703
                        }
                    }
                } else {
                    if i < 704 {
                        703
                    } else {
                        if i < 705 {
                            750
                        } else {
                            750
                        }
                    }
                }
            } else {
                if i < 709 {
                    if i < 707 {
                        750
                    } else {
                        if i < 708 {
                            750
                        } else {
                            750
                        }
                    }
                } else {
                    if i < 710 {
                        750
                    } else {
                        if i < 711 {
                            750
                        } else {
                            750
                        }
                    }
                }
            }
        } else {
            if i < 718 {
                if i < 715 {
                    if i < 713 {
                        750
                    } else {
                        if i < 714 {
                            750
                        } else {
                            750
                        }
                    }
                } else {
                    if i < 716 {
                        750
                    } else {
                        if i < 717 {
                            750
                        } else {
                            750
                        }
                    }
                }
            } else {
                if i < 721 {
                    if i < 719 {
                        750
                    } else {
                        if i < 720 {
                            750
                        } else {
                            750
                        }
                    }
                } else {
                    if i < 723 {
                        if i < 722 {
                            750
                        } else {
                            750
                        }
                    } else {
                        if i < 724 {
                            750
                        } else {
                            750
                        }
                    }
                }
            }
        }
    } else {
        if i < 737 {
            if i < 731 {
                if i < 728 {
                    if i < 726 {
                        750
                    } else {
                        if i < 727 {
                            750
                        } else {
                            750
                        }
                    }
                } else {
                    if i < 729 {
                        750
                    } else {
                        if i < 730 {
                            750
                        } else {
                            750
                        }
                    }
                }
            } else {
                if i < 734 {
                    if i < 732 {
                        750
                    } else {
                        if i < 733 {
                            750
                        } else {
                            750
                        }
                    }
                } else {
                    if i < 735 {
                        750
                    } else {
                        if i < 736 {
                            750
                        } else {
                            750
                        }
                    }
                }
            }
        } else {
            if i < 743 {
                if i < 740 {
                    if i < 738 {
                        750
                    } else {
                        if i < 739 {
                            750
                        } else {
                            750
                        }
                    }
                } else {
                    if i < 741 {
                        750
                    } else {
                        if i < 742 {
                            750
                        } else {
                            750
                        }
                    }
                }
            } else {
                if i < 746 {
                    if i < 744 {
                        750
                    } else {
                        if i < 745 {
                            750
                        } else {
                            750
                        }
                    }
                } else {
                    if i < 748 {
                        if i < 747 {
                            750
                        } else {
                            750
                        }
                    } else {
                        if i < 749 {
                            750
                        } else {
                            750
                        }
                    }
                }
            }
        }
    }
}

pub open spec fn gap_block15(i: int) -> int {
    if i < 775 {
        if i < 762 {
            if i < 756 {
                if i < 753 {
                    if i < 751 {
                        750
                    } else {
                        if i < 752 {
                            751
                        } else {
                            752
                        }
                    }
                } else {
                    if i < 754 {
                        753
                    } else {
                        if i < 755 {
                            754
                        } else {
                            755
                        }
                    }
                }
            } else {
                if i < 759 {
                    if i < 757 {
                        756
                    } else {
                        if i < 758 {
                            757
                        } else {
                            758
                        }
                    }
                } else {
                    if i < 760 {
                        759
                    } else {
                        if i < 761 {
                            760
                        } else {
                            761
                        }
                    }
                }
            }
        } else {
            if i < 768 {
                if i < 765 {
                    if i < 763 {
                        762
                    } else {
                        if i < 764 {
                            763
                        } else {
                            764
                        }
                    }
                } else {
                    if i < 766 {
                        765
                    } else {
                        if i < 767 {
                            766
                        } else {
                            767
                        }
                    }
                }
            } else {
                if i < 771 {
                    if i < 769 {
                        768
                    } else {
                        if i < 770 {
                            769
                        } else {
                            770
                        }
                    }
                } else {
                    if i < 773 {
                        if i < 772 {
                            771
                        } else {
                            772
                        }
                    } else {
                        if i < 774 {
                            773
                        } else {
                            774
                        }
                    }
                }
            }
        }
    } else {
        if i < 787 {
            if i < 781 {
                if i < 778 {
                    if i < 776 {
                        775
                    } else {
                        if i < 777 {
                            776
                        } else {
                            777
                        }
                    }
                } else {
                    if i < 779 {
                        778
                    } else {
                        if i < 780 {
                            779
                        } else {
                            780
                        }
                    }
                }
            } else {
                if i < 784 {
                    if i < 782 {
                        781
                    } else {
                        if i < 783 {
                            782
                        } else {
                            783
                        }
                    }
                } else {
                    if i < 785 {
                        784
                    } else {
                        if i < 786 {
                            785
                        } else {
                            786
                        }
                    }
                }
            }
        } else {
            if i < 793 {
                if i < 790 {
                    if i < 788 {
                        787
                    } else {
                        if i < 789 {
                            788
                        } else {
                            789
                        }
                    }
                } else {
                    if i < 791 {
                        790
                    } else {
                        if i < 792 {
                            791
                        } else {
                            792
                        }
                    }
                }
            } else {
                if i < 796 {
                    if i < 794 {
                        793
                    } else {
                        if i < 795 {
                            794
                        } else {
                            795
                        }
                    }
                } else {
                    if i < 798 {
                        if i < 797 {
                            796
                        } else {
                            797
                        }
                    } else {
                        if i < 799 {
                            798
                        } else {
                            799
                        }
                    }
                }
            }
        }
    }
}

pub open spec fn gap_block16(i: int) -> int {
    if i < 825 {
        if i < 812 {
            if i < 806 {
                if i < 803 {
                    if i < 801 {
                        800
                    } else {
                        if i < 802 {
                            826
                        } else {
                            826
                        }
                    }
                } else {
                    if i < 804 {
                        826
                    } else {
                        if i < 805 {
                            826
                        } else {
                            826
                        }
                    }
                }
            } else {
                if i < 809 {
                    if i < 807 {
                        826
                    } else {
                        if i < 808 {
                            826
                        } else {
                            826
                        }
                    }
                } else {
                    if i < 810 {
                        826
                    } else {
                        if i < 811 {
                            826
                        } else {
                            826
                        }
                    }
                }
            }
        } else {
            if i < 818 {
                if i < 815 {
                    if i < 813 {
                        826
                    } else {
                        if i < 814 {
                            826
                        } else {
                            826
                        }
                    }
                } else {
                    if i < 816 {
                        826
                    } else {
                        if i < 817 {
                            826
                        } else {
                            826
                        }
                    }
                }
            } else {
                if i < 821 {
                    if i < 819 {
                        826
                    } else {
                        if i < 820 {
                            826
                        } else {
                            826
                        }
                    }
                } else {
                    if i < 823 {
                        if i < 822 {
                            826
                        } else {
                            826
                        }
                    } else {
                        if i < 824 {
                            826
                        } else {
                            826
                        }
                    }
                }
            }
        }
    } else {
        if i < 837 {
            if i < 831 {
                if i < 828 {
                    if i < 826 {
                        826
                    } else {
                        if i < 827 {
                            826
                        } else {
                            866
                        }
                    }
                } else {
                    if i < 829 {
                        866
                    } else {
                        if i < 830 {
                            866
                        } else {
                            866
                        }
                    }
                }
            } else {
                if i < 834 {
                    if i < 832 {
                        866
                    } else {
                        if i < 833 {
                            866
                        } else {
                            866
                        }
                    }
                } else {
                    if i < 835 {
                        866
                    } else {
                        if i < 836 {
                            866
                        } else {
                            866
                        }
                    }
                }
            }
        } else {
            if i < 843 {
                if i < 840 {
                    if i < 838 {
                        866
                    } else {
                        if i < 839 {
                            866
                        } else {
                            866
                        }
                    }
                } else {
                    if i < 841 {
                        866
                    } else {
                        if i < 842 {
                            866
                        } else {
                            866
                        }
                    }
                }
            } else {
                if i < 846 {
                    if i < 844 {
                        866
                    } else {
                        if i < 845 {
                            866
                        } else {
                            866
                        }
                    }
                } else {
                    if i < 848 {
                        if i < 847 {
                            866
                        } else {
                            866
                        }
                    } else {
                        if i < 849 {
                            866
                        } else {
                            866
                        }
                    }
                }
            }
        }
    }
}

pub open spec fn gap_block17(i: int) -> int {
    if i < 858 {
        if i < 854 {
            if i < 852 {
                if i < 851 {
                    866
                } else {
                    866
                }
            } else {
                if i < 853 {
                    866
                } else {
                    866
                }
            }
        } else {
            if i < 856 {
                if i < 855 {
                    866
                } else {
                    866
                }
            } else {
                if i < 857 {
                    866
                } else {
                    866
                }
            }
        }
    } else {
        if i < 862 {
            if i < 860 {
                if i < 859 {
                    866
                } else {
                    866
                }
            } else {
                if i < 861 {
                    866
                } else {
                    866
                }
            }
        } else {
            if i < 864 {
                if i < 863 {
                    866
                } else {
                    866
                }
            } else {
                if i < 865 {
                    866
                } else {
                    if i < 866 {
                        866
                    } else {
                        866
                    }
                }
            }
        }
    }
}

pub open spec fn gap_at(i: int) -> int {
    if i < 450 {
        if i < 200 {
            if i < 100 {
                if i < 50 {
                    gap_block00(i)
                } else {
                    gap_block01(i)
                }
            } else {
                if i < 150 {
                    gap_block02(i)
                } else {
                    gap_block03(i)
                }
            }
        } else {
            if i < 300 {
                if i < 250 {
                    gap_block04(i)
                } else {
                    gap_block05(i)
                }
            } else {
                if i < 350 {
                    gap_block06(i)
                } else {
                    if i < 400 {
                        gap_block07(i)
                    } else {
                        gap_block08(i)
                    }
                }
            }
        }
    } else {
        if i < 650 {
            if i < 550 {
                if i < 500 {
                    gap_block09(i)
                } else {
                    gap_block10(i)
                }
            } else {
                if i < 600 {
                    gap_block11(i)
                } else {
                    gap_block12(i)
                }
            }
        } else {
            if i < 750 {
                if i < 700 {
                    gap_block13(i)
                } else {
                    gap_block14(i)
                }
            } else {
                if i < 800 {
                    gap_block15(i)
                } else {
                    if i < 850 {
                        gap_block16(i)
                    } else {
                        gap_block17(i)
                    }
                }
            }
        }
    }
}

/// The lower of entry `i` sits strictly between the uppers around `gap_at(i)`,
/// and is not an ASCII capital letter that the ASCII fast path would rewrite.
pub open spec fn lower_separated(i: int) -> bool {
    let b = gap_at(i);
    let l = lower_at(i) as u32;
    &&& -1 <= b < 867
    &&& b >= 0 ==> ((upper_at(b) as u32) < l)
    &&& b < 866 ==> (l < (upper_at(b + 1) as u32))
    &&& !(65 <= l <= 90)
}

fn pair_exec_block00(i: usize) -> (p: (char, char))
    requires
        0 <= i < 50,
    ensures
        p == pair_block00(i as int),
{
    if i < 25 {
        if i < 12 {
            if i < 6 {
                if i < 3 {
                    if i < 1 {
                        ('\u{c0}', '\u{e0}')
                    } else {
                        if i < 2 {
                            ('\u{c1}', '\u{e1}')
                        } else {
                            ('\u{c2}', '\u{e2}')
                        }
                    }
                } else {
                    if i < 4 {
                        ('\u{c3}', '\u{e3}')
                    } else {
                        if i < 5 {
                            ('\u{c4}', '\u{e4}')
                        } else {
                            ('\u{c5}', '\u{e5}')
                        }
                    }
                }
            } else {
                if i < 9 {
                    if i < 7 {
                        ('\u{c6}', '\u{e6}')
                    } else {
                        if i < 8 {
                            ('\u{c7}', '\u{e7}')
                        } else {
                            ('\u{c8}', '\u{e8}')
                        }
                    }
                } else {
                    if i < 10 {
                        ('\u{c9}', '\u{e9}')
                    } else {
                        if i < 11 {
                            ('\u{ca}', '\u{ea}')
                        } else {
                            ('\u{cb}', '\u{eb}')
                        }
                    }
                }
            }
        } else {
            if i < 18 {
                if i < 15 {
                    if i < 13 {
                        ('\u{cc}', '\u{ec}')
                    } else {
                        if i < 14 {
                            ('\u{cd}', '\u{ed}')
                        } else {
                            ('\u{ce}', '\u{ee}')
                        }
                    }
                } else {
                    if i < 16 {
                        ('\u{cf}', '\u{ef}')
                    } else {
                        if i < 17 {
                            ('\u{d0}', '\u{f0}')
                        } else {
                            ('\u{d1}', '\u{f1}')
                        }
                    }
                }
            } else {
                if i < 21 {
                    if i < 19 {
                        ('\u{d2}', '\u{f2}')
                    } else {
                        if i < 20 {
                            ('\u{d3}', '\u{f3}')
                        } else {
                            ('\u{d4}', '\u{f4}')
                        }
                    }
                } else {
                    if i < 23 {
                        if i < 22 {
                            ('\u{d5}', '\u{f5}')
                        } else {
                            ('\u{d6}', '\u{f6}')
                        }
                    } else {
                        if i < 24 {
                            ('\u{d8}', '\u{f8}')
                        } else {
                            ('\u{d9}', '\u{f9}')
                        }
                    }
                }
            }
        }
    } else {
        if i < 37 {
            if i < 31 {
                if i < 28 {
                    if i < 26 {
                        ('\u{da}', '\u{fa}')
                    } else {
                        if i < 27 {
                            ('\u{db}', '\u{fb}')
                        } else {
                            ('\u{dc}', '\u{fc}')
                        }
                    }
                } else {
                    if i < 29 {
                        ('\u{dd}', '\u{fd}')
                    } else {
                        if i < 30 {
                            ('\u{de}', '\u{fe}')
                        } else {
                            ('\u{100}', '\u{101}')
                        }
                    }
                }
            } else {
                if i < 34 {
                    if i < 32 {
                        ('\u{102}', '\u{103}')
                    } else {
                        if i < 33 {
                            ('\u{104}', '\u{105}')
                        } else {
                            ('\u{106}', '\u{107}')
                        }
                    }
                } else {
                    if i < 35 {
                        ('\u{108}', '\u{109}')
                    } else {
                        if i < 36 {
                            ('\u{10a}', '\u{10b}')
                        } else {
                            ('\u{10c}', '\u{10d}')
                        }
                    }
                }
            }
        } else {
            if i < 43 {
                if i < 40 {
                    if i < 38 {
                        ('\u{10e}', '\u{10f}')
                    } else {
                        if i < 39 {
                            ('\u{110}', '\u{111}')
                        } else {
                            ('\u{112}', '\u{113}')
                        }
                    }
                } else {
                    if i < 41 {
                        ('\u{114}', '\u{115}')
                    } else {
                        if i < 42 {
                            ('\u{116}', '\u{117}')
                        } else {
                            ('\u{118}', '\u{119}')
                        }
                    }
                }
            } else {
                if i < 46 {
                    if i < 44 {
                        ('\u{11a}', '\u{11b}')
                    } else {
                        if i < 45 {
                            ('\u{11c}', '\u{11d}')
                        } else {
                            ('\u{11e}', '\u{11f}')
                        }
                    }
                } else {
                    if i < 48 {
                        if i < 47 {
                            ('\u{120}', '\u{121}')
                        } else {
                            ('\u{122}', '\u{123}')
                        }
                    } else {
                        if i < 49 {
                            ('\u{124}', '\u{125}')
                        } else {
                            ('\u{126}', '\u{127}')
                        }
                    }
                }
            }
        }
    }
}

fn pair_exec_block01(i: usize) -> (p: (char, char))
    requires
        50 <= i < 100,
    ensures
        p == pair_block01(i as int),
{
    if i < 75 {
        if i < 62 {
            if i < 56 {
                if i < 53 {
                    if i < 51 {
                        ('\u{128}', '\u{129}')
                    } else {
                        if i < 52 {
                            ('\u{12a}', '\u{12b}')
                        } else {
                            ('\u{12c}', '\u{12d}')
                        }
                    }
                } else {
                    if i < 54 {
                        ('\u{12e}', '\u{12f}')
                    } else {
                        if i < 55 {
                            ('\u{130}', '\u{69}')
                        } else {
                            ('\u{132}', '\u{133}')
                        }
                    }
                }
            } else {
                if i < 59 {
                    if i < 57 {
                        ('\u{134}', '\u{135}')
                    } else {
                        if i < 58 {
                            ('\u{136}', '\u{137}')
                        } else {
                            ('\u{139}', '\u{13a}')
                        }
                    }
                } else {
                    if i < 60 {
                        ('\u{13b}', '\u{13c}')
                    } else {
                        if i < 61 {
                            ('\u{13d}', '\u{13e}')
                        } else {
                            ('\u{13f}', '\u{140}')
                        }
                    }
                }
            }
        } else {
            if i < 68 {
                if i < 65 {
                    if i < 63 {
                        ('\u{141}', '\u{142}')
                    } else {
                        if i < 64 {
                            ('\u{143}', '\u{144}')
                        } else {
                            ('\u{145}', '\u{146}')
                        }
                    }
                } else {
                    if i < 66 {
                        ('\u{147}', '\u{148}')
                    } else {
                        if i < 67 {
                            ('\u{14a}', '\u{14b}')
                        } else {
                            ('\u{14c}', '\u{14d}')
                        }
                    }
                }
            } else {
                if i < 71 {
                    if i < 69 {
                        ('\u{14e}', '\u{14f}')
                    } else {
                        if i < 70 {
                            ('\u{150}', '\u{151}')
                        } else {
                            ('\u{152}', '\u{153}')
                        }
                    }
                } else {
                    if i < 73 {
                        if i < 72 {
                            ('\u{154}', '\u{155}')
                        } else {
                            ('\u{156}', '\u{157}')
                        }
                    } else {
                        if i < 74 {
                            ('\u{158}', '\u{159}')
                        } else {
                            ('\u{15a}', '\u{15b}')
                        }
                    }
                }
            }
        }
    } else {
        if i < 87 {
            if i < 81 {
                if i < 78 {
                    if i < 76 {
                        ('\u{15c}', '\u{15d}')
                    } else {
                        if i < 77 {
                            ('\u{15e}', '\u{15f}')
                        } else {
                            ('\u{160}', '\u{161}')
                        }
                    }
                } else {
                    if i < 79 {
                        ('\u{162}', '\u{163}')
                    } else {
                        if i < 80 {
                            ('\u{164}', '\u{165}')
                        } else {
                            ('\u{166}', '\u{167}')
                        }
                    }
                }
            } else {
                if i < 84 {
                    if i < 82 {
                        ('\u{168}', '\u{169}')
                    } else {
                        if i < 83 {
                            ('\u{16a}', '\u{16b}')
                        } else {
                            ('\u{16c}', '\u{16d}')
                        }
                    }
                } else {
                    if i < 85 {
                        ('\u{16e}', '\u{16f}')
                    } else {
                        if i < 86 {
                            ('\u{170}', '\u{171}')
                        } else {
                            ('\u{172}', '\u{173}')
                        }
                    }
                }
            }
        } else {
            if i < 93 {
                if i < 90 {
                    if i < 88 {
                        ('\u{174}', '\u{175}')
                    } else {
                        if i < 89 {
                            ('\u{176}', '\u{177}')
                        } else {
                            ('\u{178}', '\u{ff}')
                        }
                    }
                } else {
                    if i < 91 {
                        ('\u{179}', '\u{17a}')
                    } else {
                        if i < 92 {
                            ('\u{17b}', '\u{17c}')
                        } else {
                            ('\u{17d}', '\u{17e}')
                        }
                    }
                }
            } else {
                if i < 96 {
                    if i < 94 {
                        ('\u{181}', '\u{253}')
                    } else {
                        if i < 95 {
                            ('\u{182}', '\u{183}')
                        } else {
                            ('\u{184}', '\u{185}')
                        }
                    }
                } else {
                    if i < 98 {
                        if i < 97 {
                            ('\u{186}', '\u{254}')
                        } else {
                            ('\u{187}', '\u{188}')
                        }
                    } else {
                        if i < 99 {
                            ('\u{189}', '\u{256}')
                        } else {
                            ('\u{18a}', '\u{257}')
                        }
                    }
                }
            }
        }
    }
}

fn pair_exec_block02(i: usize) -> (p: (char, char))
    requires
        100 <= i < 150,
    ensures
        p == pair_block02(i as int),
{
    if i < 125 {
        if i < 112 {
            if i < 106 {
                if i < 103 {
                    if i < 101 {
                        ('\u{18b}', '\u{18c}')
                    } else {
                        if i < 102 {
                            ('\u{18e}', '\u{1dd}')
                        } else {
                            ('\u{18f}', '\u{259}')
                        }
                    }
                } else {
                    if i < 104 {
                        ('\u{190}', '\u{25b}')
                    } else {
                        if i < 105 {
                            ('\u{191}', '\u{192}')
                        } else {
                            ('\u{193}', '\u{260}')
                        }
                    }
                }
            } else {
                if i < 109 {
                    if i < 107 {
                        ('\u{194}', '\u{263}')
                    } else {
                        if i < 108 {
                            ('\u{196}', '\u{269}')
                        } else {
                            ('\u{197}', '\u{268}')
                        }
                    }
                } else {
                    if i < 110 {
                        ('\u{198}', '\u{199}')
                    } else {
                        if i < 111 {
                            ('\u{19c}', '\u{26f}')
                        } else {
                            ('\u{19d}', '\u{272}')
                        }
                    }
                }
            }
        } else {
            if i < 118 {
                if i < 115 {
                    if i < 113 {
                        ('\u{19f}', '\u{275}')
                    } else {
                        if i < 114 {
                            ('\u{1a0}', '\u{1a1}')
                        } else {
                            ('\u{1a2}', '\u{1a3}')
                        }
                    }
                } else {
                    if i < 116 {
                        ('\u{1a4}', '\u{1a5}')
                    } else {
                        if i < 117 {
                            ('\u{1a6}', '\u{280}')
                        } else {
                            ('\u{1a7}', '\u{1a8}')
                        }
                    }
                }
            } else {
                if i < 121 {
                    if i < 119 {
                        ('\u{1a9}', '\u{283}')
                    } else {
                        if i < 120 {
                            ('\u{1ac}', '\u{1ad}')
                        } else {
                            ('\u{1ae}', '\u{288}')
                        }
                    }
                } else {
                    if i < 123 {
                        if i < 122 {
                            ('\u{1af}', '\u{1b0}')
                        } else {
                            ('\u{1b1}', '\u{28a}')
                        }
                    } else {
                        if i < 124 {
                            ('\u{1b2}', '\u{28b}')
                        } else {
                            ('\u{1b3}', '\u{1b4}')
                        }
                    }
                }
            }
        }
    } else {
        if i < 137 {
            if i < 131 {
                if i < 128 {
                    if i < 126 {
                        ('\u{1b5}', '\u{1b6}')
                    } else {
                        if i < 127 {
                            ('\u{1b7}', '\u{292}')
                        } else {
                            ('\u{1b8}', '\u{1b9}')
                        }
                    }
                } else {
                    if i < 129 {
                        ('\u{1bc}', '\u{1bd}')
                    } else {
                        if i < 130 {
                            ('\u{1c4}', '\u{1c6}')
                        } else {
                            ('\u{1c5}', '\u{1c6}')
                        }
                    }
                }
            } else {
                if i < 134 {
                    if i < 132 {
                        ('\u{1c7}', '\u{1c9}')
                    } else {
                        if i < 133 {
                            ('\u{1c8}', '\u{1c9}')
                        } else {
                            ('\u{1ca}', '\u{1cc}')
                        }
                    }
                } else {
                    if i < 135 {
                        ('\u{1cb}', '\u{1cc}')
                    } else {
                        if i < 136 {
                            ('\u{1cd}', '\u{1ce}')
                        } else {
                            ('\u{1cf}', '\u{1d0}')
                        }
                    }
                }
            }
        } else {
            if i < 143 {
                if i < 140 {
                    if i < 138 {
                        ('\u{1d1}', '\u{1d2}')
                    } else {
                        if i < 139 {
                            ('\u{1d3}', '\u{1d4}')
                        } else {
                            ('\u{1d5}', '\u{1d6}')
                        }
                    }
                } else {
                    if i < 141 {
                        ('\u{1d7}', '\u{1d8}')
                    } else {
                        if i < 142 {
                            ('\u{1d9}', '\u{1da}')
                        } else {
                            ('\u{1db}', '\u{1dc}')
                        }
                    }
                }
            } else {
                if i < 146 {
                    if i < 144 {
                        ('\u{1de}', '\u{1df}')
                    } else {
                        if i < 145 {
                            ('\u{1e0}', '\u{1e1}')
                        } else {
                            ('\u{1e2}', '\u{1e3}')
                        }
                    }
                } else {
                    if i < 148 {
                        if i < 147 {
                            ('\u{1e4}', '\u{1e5}')
                        } else {
                            ('\u{1e6}', '\u{1e7}')
                        }
                    } else {
                        if i < 149 {
                            ('\u{1e8}', '\u{1e9}')
                        } else {
                            ('\u{1ea}', '\u{1eb}')
                        }
                    }
                }
            }
        }
    }
}

fn pair_exec_block03(i: usize) -> (p: (char, char))
    requires
        150 <= i < 200,
    ensures
        p == pair_block03(i as int),
{
    if i < 175 {
        if i < 162 {
            if i < 156 {
                if i < 153 {
                    if i < 151 {
                        ('\u{1ec}', '\u{1ed}')
                    } else {
                        if i < 152 {
                            ('\u{1ee}', '\u{1ef}')
                        } else {
                            ('\u{1f1}', '\u{1f3}')
                        }
                    }
                } else {
                    if i < 154 {
                        ('\u{1f2}', '\u{1f3}')
                    } else {
                        if i < 155 {
                            ('\u{1f4}', '\u{1f5}')
                        } else {
                            ('\u{1f6}', '\u{195}')
                        }
                    }
                }
            } else {
                if i < 159 {
                    if i < 157 {
                        ('\u{1f7}', '\u{1bf}')
                    } else {
                        if i < 158 {
                            ('\u{1f8}', '\u{1f9}')
                        } else {
                            ('\u{1fa}', '\u{1fb}')
                        }
                    }
                } else {
                    if i < 160 {
                        ('\u{1fc}', '\u{1fd}')
                    } else {
                        if i < 161 {
                            ('\u{1fe}', '\u{1ff}')
                        } else {
                            ('\u{200}', '\u{201}')
                        }
                    }
                }
            }
        } else {
            if i < 168 {
                if i < 165 {
                    if i < 163 {
                        ('\u{202}', '\u{203}')
                    } else {
                        if i < 164 {
                            ('\u{204}', '\u{205}')
                        } else {
                            ('\u{206}', '\u{207}')
                        }
                    }
                } else {
                    if i < 166 {
                        ('\u{208}', '\u{209}')
                    } else {
                        if i < 167 {
                            ('\u{20a}', '\u{20b}')
                        } else {
                            ('\u{20c}', '\u{20d}')
                        }
                    }
                }
            } else {
                if i < 171 {
                    if i < 169 {
                        ('\u{20e}', '\u{20f}')
                    } else {
                        if i < 170 {
                            ('\u{210}', '\u{211}')
                        } else {
                            ('\u{212}', '\u{213}')
                        }
                    }
                } else {
                    if i < 173 {
                        if i < 172 {
                            ('\u{214}', '\u{215}')
                        } else {
                            ('\u{216}', '\u{217}')
                        }
                    } else {
                        if i < 174 {
                            ('\u{218}', '\u{219}')
                        } else {
                            ('\u{21a}', '\u{21b}')
                        }
                    }
                }
            }
        }
    } else {
        if i < 187 {
            if i < 181 {
                if i < 178 {
                    if i < 176 {
                        ('\u{21c}', '\u{21d}')
                    } else {
                        if i < 177 {
                            ('\u{21e}', '\u{21f}')
                        } else {
                            ('\u{220}', '\u{19e}')
                        }
                    }
                } else {
                    if i < 179 {
                        ('\u{222}', '\u{223}')
                    } else {
                        if i < 180 {
                            ('\u{224}', '\u{225}')
                        } else {
                            ('\u{226}', '\u{227}')
                        }
                    }
                }
            } else {
                if i < 184 {
                    if i < 182 {
                        ('\u{228}', '\u{229}')
                    } else {
                        if i < 183 {
                            ('\u{22a}', '\u{22b}')
                        } else {
                            ('\u{22c}', '\u{22d}')
                        }
                    }
                } else {
                    if i < 185 {
                        ('\u{22e}', '\u{22f}')
                    } else {
                        if i < 186 {
                            ('\u{230}', '\u{231}')
                        } else {
                            ('\u{232}', '\u{233}')
                        }
                    }
                }
            }
        } else {
            if i < 193 {
                if i < 190 {
                    if i < 188 {
                        ('\u{23b}', '\u{23c}')
                    } else {
                        if i < 189 {
                            ('\u{23d}', '\u{19a}')
                        } else {
                            ('\u{345}', '\u{3b9}')
                        }
                    }
                } else {
                    if i < 191 {
                        ('\u{386}', '\u{3ac}')
                    } else {
                        if i < 192 {
                            ('\u{388}', '\u{3ad}')
                        } else {
                            ('\u{389}', '\u{3ae}')
                        }
                    }
                }
            } else {
                if i < 196 {
                    if i < 194 {
                        ('\u{38a}', '\u{3af}')
                    } else {
                        if i < 195 {
                            ('\u{38c}', '\u{3cc}')
                        } else {
                            ('\u{38e}', '\u{3cd}')
                        }
                    }
                } else {
                    if i < 198 {
                        if i < 197 {
                            ('\u{38f}', '\u{3ce}')
                        } else {
                            ('\u{391}', '\u{3b1}')
                        }
                    } else {
                        if i < 199 {
                            ('\u{392}', '\u{3b2}')
                        } else {
                            ('\u{393}', '\u{3b3}')
                        }
                    }
                }
            }
        }
    }
}

fn pair_exec_block04(i: usize) -> (p: (char, char))
    requires
        200 <= i < 250,
    ensures
        p == pair_block04(i as int),
{
    if i < 225 {
        if i < 212 {
            if i < 206 {
                if i < 203 {
                    if i < 201 {
                        ('\u{394}', '\u{3b4}')
                    } else {
                        if i < 202 {
                            ('\u{395}', '\u{3b5}')
                        } else {
                            ('\u{396}', '\u{3b6}')
                        }
                    }
                } else {
                    if i < 204 {
                        ('\u{397}', '\u{3b7}')
                    } else {
                        if i < 205 {
                            ('\u{398}', '\u{3b8}')
                        } else {
                            ('\u{399}', '\u{3b9}')
                        }
                    }
                }
            } else {
                if i < 209 {
                    if i < 207 {
                        ('\u{39a}', '\u{3ba}')
                    } else {
                        if i < 208 {
                            ('\u{39b}', '\u{3bb}')
                        } else {
                            ('\u{39c}', '\u{3bc}')
                        }
                    }
                } else {
                    if i < 210 {
                        ('\u{39d}', '\u{3bd}')
                    } else {
                        if i < 211 {
                            ('\u{39e}', '\u{3be}')
                        } else {
                            ('\u{39f}', '\u{3bf}')
                        }
                    }
                }
            }
        } else {
            if i < 218 {
                if i < 215 {
                    if i < 213 {
                        ('\u{3a0}', '\u{3c0}')
                    } else {
                        if i < 214 {
                            ('\u{3a1}', '\u{3c1}')
                        } else {
                            ('\u{3a3}', '\u{3c3}')
                        }
                    }
                } else {
                    if i < 216 {
                        ('\u{3a4}', '\u{3c4}')
                    } else {
                        if i < 217 {
                            ('\u{3a5}', '\u{3c5}')
                        } else {
                            ('\u{3a6}', '\u{3c6}')
                        }
                    }
                }
            } else {
                if i < 221 {
                    if i < 219 {
                        ('\u{3a7}', '\u{3c7}')
                    } else {
                        if i < 220 {
                            ('\u{3a8}', '\u{3c8}')
                        } else {
                            ('\u{3a9}', '\u{3c9}')
                        }
                    }
                } else {
                    if i < 223 {
                        if i < 222 {
                            ('\u{3aa}', '\u{3ca}')
                        } else {
                            ('\u{3ab}', '\u{3cb}')
                        }
                    } else {
                        if i < 224 {
                            ('\u{3d8}', '\u{3d9}')
                        } else {
                            ('\u{3da}', '\u{3db}')
                        }
                    }
                }
            }
        }
    } else {
        if i < 237 {
            if i < 231 {
                if i < 228 {
                    if i < 226 {
                        ('\u{3dc}', '\u{3dd}')
                    } else {
                        if i < 227 {
                            ('\u{3de}', '\u{3df}')
                        } else {
                            ('\u{3e0}', '\u{3e1}')
                        }
                    }
                } else {
                    if i < 229 {
                        ('\u{3e2}', '\u{3e3}')
                    } else {
                        if i < 230 {
                            ('\u{3e4}', '\u{3e5}')
                        } else {
                            ('\u{3e6}', '\u{3e7}')
                        }
                    }
                }
            } else {
                if i < 234 {
                    if i < 232 {
                        ('\u{3e8}', '\u{3e9}')
                    } else {
                        if i < 233 {
                            ('\u{3ea}', '\u{3eb}')
                        } else {
                            ('\u{3ec}', '\u{3ed}')
                        }
                    }
                } else {
                    if i < 235 {
                        ('\u{3ee}', '\u{3ef}')
                    } else {
                        if i < 236 {
                            ('\u{3f4}', '\u{3b8}')
                        } else {
                            ('\u{3f7}', '\u{3f8}')
                        }
                    }
                }
            }
        } else {
            if i < 243 {
                if i < 240 {
                    if i < 238 {
                        ('\u{3f9}', '\u{3f2}')
                    } else {
                        if i < 239 {
                            ('\u{3fa}', '\u{3fb}')
                        } else {
                            ('\u{400}', '\u{450}')
                        }
                    }
                } else {
                    if i < 241 {
                        ('\u{401}', '\u{451}')
                    } else {
                        if i < 242 {
                            ('\u{402}', '\u{452}')
                        } else {
                            ('\u{403}', '\u{453}')
                        }
                    }
                }
            } else {
                if i < 246 {
                    if i < 244 {
                        ('\u{404}', '\u{454}')
                    } else {
                        if i < 245 {
                            ('\u{405}', '\u{455}')
                        } else {
                            ('\u{406}', '\u{456}')
                        }
                    }
                } else {
                    if i < 248 {
                        if i < 247 {
                            ('\u{407}', '\u{457}')
                        } else {
                            ('\u{408}', '\u{458}')
                        }
                    } else {
                        if i < 249 {
                            ('\u{409}', '\u{459}')
                        } else {
                            ('\u{40a}', '\u{45a}')
                        }
                    }
                }
            }
        }
    }
}

fn pair_exec_block05(i: usize) -> (p: (char, char))
    requires
        250 <= i < 300,
    ensures
        p == pair_block05(i as int),
{
    if i < 275 {
        if i < 262 {
            if i < 256 {
                if i < 253 {
                    if i < 251 {
                        ('\u{40b}', '\u{45b}')
                    } else {
                        if i < 252 {
                            ('\u{40c}', '\u{45c}')
                        } else {
                            ('\u{40d}', '\u{45d}')
                        }
                    }
                } else {
                    if i < 254 {
                        ('\u{40e}', '\u{45e}')
                    } else {
                        if i < 255 {
                            ('\u{40f}', '\u{45f}')
                        } else {
                            ('\u{410}', '\u{430}')
                        }
                    }
                }
            } else {
                if i < 259 {
                    if i < 257 {
                        ('\u{411}', '\u{431}')
                    } else {
                        if i < 258 {
                            ('\u{412}', '\u{432}')
                        } else {
                            ('\u{413}', '\u{433}')
                        }
                    }
                } else {
                    if i < 260 {
                        ('\u{414}', '\u{434}')
                    } else {
                        if i < 261 {
                            ('\u{415}', '\u{435}')
                        } else {
                            ('\u{416}', '\u{436}')
                        }
                    }
                }
            }
        } else {
            if i < 268 {
                if i < 265 {
                    if i < 263 {
                        ('\u{417}', '\u{437}')
                    } else {
                        if i < 264 {
                            ('\u{418}', '\u{438}')
                        } else {
                            ('\u{419}', '\u{439}')
                        }
                    }
                } else {
                    if i < 266 {
                        ('\u{41a}', '\u{43a}')
                    } else {
                        if i < 267 {
                            ('\u{41b}', '\u{43b}')
                        } else {
                            ('\u{41c}', '\u{43c}')
                        }
                    }
                }
            } else {
                if i < 271 {
                    if i < 269 {
                        ('\u{41d}', '\u{43d}')
                    } else {
                        if i < 270 {
                            ('\u{41e}', '\u{43e}')
                        } else {
                            ('\u{41f}', '\u{43f}')
                        }
                    }
                } else {
                    if i < 273 {
                        if i < 272 {
                            ('\u{420}', '\u{440}')
                        } else {
                            ('\u{421}', '\u{441}')
                        }
                    } else {
                        if i < 274 {
                            ('\u{422}', '\u{442}')
                        } else {
                            ('\u{423}', '\u{443}')
                        }
                    }
                }
            }
        }
    } else {
        if i < 287 {
            if i < 281 {
                if i < 278 {
                    if i < 276 {
                        ('\u{424}', '\u{444}')
                    } else {
                        if i < 277 {
                            ('\u{425}', '\u{445}')
                        } else {
                            ('\u{426}', '\u{446}')
                        }
                    }
                } else {
                    if i < 279 {
                        ('\u{427}', '\u{447}')
                    } else {
                        if i < 280 {
                            ('\u{428}', '\u{448}')
                        } else {
                            ('\u{429}', '\u{449}')
                        }
                    }
                }
            } else {
                if i < 284 {
                    if i < 282 {
                        ('\u{42a}', '\u{44a}')
                    } else {
                        if i < 283 {
                            ('\u{42b}', '\u{44b}')
                        } else {
                            ('\u{42c}', '\u{44c}')
                        }
                    }
                } else {
                    if i < 285 {
                        ('\u{42d}', '\u{44d}')
                    } else {
                        if i < 286 {
                            ('\u{42e}', '\u{44e}')
                        } else {
                            ('\u{42f}', '\u{44f}')
                        }
                    }
                }
            }
        } else {
            if i < 293 {
                if i < 290 {
                    if i < 288 {
                        ('\u{460}', '\u{461}')
                    } else {
                        if i < 289 {
                            ('\u{462}', '\u{463}')
                        } else {
                            ('\u{464}', '\u{465}')
                        }
                    }
                } else {
                    if i < 291 {
                        ('\u{466}', '\u{467}')
                    } else {
                        if i < 292 {
                            ('\u{468}', '\u{469}')
                        } else {
                            ('\u{46a}', '\u{46b}')
                        }
                    }
                }
            } else {
                if i < 296 {
                    if i < 294 {
                        ('\u{46c}', '\u{46d}')
                    } else {
                        if i < 295 {
                            ('\u{46e}', '\u{46f}')
                        } else {
                            ('\u{470}', '\u{471}')
                        }
                    }
                } else {
                    if i < 298 {
                        if i < 297 {
                            ('\u{472}', '\u{473}')
                        } else {
                            ('\u{474}', '\u{475}')
                        }
                    } else {
                        if i < 299 {
                            ('\u{476}', '\u{477}')
                        } else {
                            ('\u{478}', '\u{479}')
                        }
                    }
                }
            }
        }
    }
}

fn pair_exec_block06(i: usize) -> (p: (char, char))
    requires
        300 <= i < 350,
    ensures
        p == pair_block06(i as int),
{
    if i < 325 {
        if i < 312 {
            if i < 306 {
                if i < 303 {
                    if i < 301 {
                        ('\u{47a}', '\u{47b}')
                    } else {
                        if i < 302 {
                            ('\u{47c}', '\u{47d}')
                        } else {
                            ('\u{47e}', '\u{47f}')
                        }
                    }
                } else {
                    if i < 304 {
                        ('\u{480}', '\u{481}')
                    } else {
                        if i < 305 {
                            ('\u{48a}', '\u{48b}')
                        } else {
                            ('\u{48c}', '\u{48d}')
                        }
                    }
                }
            } else {
                if i < 309 {
                    if i < 307 {
                        ('\u{48e}', '\u{48f}')
                    } else {
                        if i < 308 {
                            ('\u{490}', '\u{491}')
                        } else {
                            ('\u{492}', '\u{493}')
                        }
                    }
                } else {
                    if i < 310 {
                        ('\u{494}', '\u{495}')
                    } else {
                        if i < 311 {
                            ('\u{496}', '\u{497}')
                        } else {
                            ('\u{498}', '\u{499}')
                        }
                    }
                }
            }
        } else {
            if i < 318 {
                if i < 315 {
                    if i < 313 {
                        ('\u{49a}', '\u{49b}')
                    } else {
                        if i < 314 {
                            ('\u{49c}', '\u{49d}')
                        } else {
                            ('\u{49e}', '\u{49f}')
                        }
                    }
                } else {
                    if i < 316 {
                        ('\u{4a0}', '\u{4a1}')
                    } else {
                        if i < 317 {
                            ('\u{4a2}', '\u{4a3}')
                        } else {
                            ('\u{4a4}', '\u{4a5}')
                        }
                    }
                }
            } else {
                if i < 321 {
                    if i < 319 {
                        ('\u{4a6}', '\u{4a7}')
                    } else {
                        if i < 320 {
                            ('\u{4a8}', '\u{4a9}')
                        } else {
                            ('\u{4aa}', '\u{4ab}')
                        }
                    }
                } else {
                    if i < 323 {
                        if i < 322 {
                            ('\u{4ac}', '\u{4ad}')
                        } else {
                            ('\u{4ae}', '\u{4af}')
                        }
                    } else {
                        if i < 324 {
                            ('\u{4b0}', '\u{4b1}')
                        } else {
                            ('\u{4b2}', '\u{4b3}')
                        }
                    }
                }
            }
        }
    } else {
        if i < 337 {
            if i < 331 {
                if i < 328 {
                    if i < 326 {
                        ('\u{4b4}', '\u{4b5}')
                    } else {
                        if i < 327 {
                            ('\u{4b6}', '\u{4b7}')
                        } else {
                            ('\u{4b8}', '\u{4b9}')
                        }
                    }
                } else {
                    if i < 329 {
                        ('\u{4ba}', '\u{4bb}')
                    } else {
                        if i < 330 {
                            ('\u{4bc}', '\u{4bd}')
                        } else {
                            ('\u{4be}', '\u{4bf}')
                        }
                    }
                }
            } else {
                if i < 334 {
                    if i < 332 {
                        ('\u{4c1}', '\u{4c2}')
                    } else {
                        if i < 333 {
                            ('\u{4c3}', '\u{4c4}')
                        } else {
                            ('\u{4c5}', '\u{4c6}')
                        }
                    }
                } else {
                    if i < 335 {
                        ('\u{4c7}', '\u{4c8}')
                    } else {
                        if i < 336 {
                            ('\u{4c9}', '\u{4ca}')
                        } else {
                            ('\u{4cb}', '\u{4cc}')
                        }
                    }
                }
            }
        } else {
            if i < 343 {
                if i < 340 {
                    if i < 338 {
                        ('\u{4cd}', '\u{4ce}')
                    } else {
                        if i < 339 {
                            ('\u{4d0}', '\u{4d1}')
                        } else {
                            ('\u{4d2}', '\u{4d3}')
                        }
                    }
                } else {
                    if i < 341 {
                        ('\u{4d4}', '\u{4d5}')
                    } else {
                        if i < 342 {
                            ('\u{4d6}', '\u{4d7}')
                        } else {
                            ('\u{4d8}', '\u{4d9}')
                        }
                    }
                }
            } else {
                if i < 346 {
                    if i < 344 {
                        ('\u{4da}', '\u{4db}')
                    } else {
                        if i < 345 {
                            ('\u{4dc}', '\u{4dd}')
                        } else {
                            ('\u{4de}', '\u{4df}')
                        }
                    }
                } else {
                    if i < 348 {
                        if i < 347 {
                            ('\u{4e0}', '\u{4e1}')
                        } else {
                            ('\u{4e2}', '\u{4e3}')
                        }
                    } else {
                        if i < 349 {
                            ('\u{4e4}', '\u{4e5}')
                        } else {
                            ('\u{4e6}', '\u{4e7}')
                        }
                    }
                }
            }
        }
    }
}

fn pair_exec_block07(i: usize) -> (p: (char, char))
    requires
        350 <= i < 400,
    ensures
        p == pair_block07(i as int),
{
    if i < 375 {
        if i < 362 {
            if i < 356 {
                if i < 353 {
                    if i < 351 {
                        ('\u{4e8}', '\u{4e9}')
                    } else {
                        if i < 352 {
                            ('\u{4ea}', '\u{4eb}')
                        } else {
                            ('\u{4ec}', '\u{4ed}')
                        }
                    }
                } else {
                    if i < 354 {
                        ('\u{4ee}', '\u{4ef}')
                    } else {
                        if i < 355 {
                            ('\u{4f0}', '\u{4f1}')
                        } else {
                            ('\u{4f2}', '\u{4f3}')
                        }
                    }
                }
            } else {
                if i < 359 {
                    if i < 357 {
                        ('\u{4f4}', '\u{4f5}')
                    } else {
                        if i < 358 {
                            ('\u{4f6}', '\u{4f7}')
                        } else {
                            ('\u{4f8}', '\u{4f9}')
                        }
                    }
                } else {
                    if i < 360 {
                        ('\u{500}', '\u{501}')
                    } else {
                        if i < 361 {
                            ('\u{502}', '\u{503}')
                        } else {
                            ('\u{504}', '\u{505}')
                        }
                    }
                }
            }
        } else {
            if i < 368 {
                if i < 365 {
                    if i < 363 {
                        ('\u{506}', '\u{507}')
                    } else {
                        if i < 364 {
                            ('\u{508}', '\u{509}')
                        } else {
                            ('\u{50a}', '\u{50b}')
                        }
                    }
                } else {
                    if i < 366 {
                        ('\u{50c}', '\u{50d}')
                    } else {
                        if i < 367 {
                            ('\u{50e}', '\u{50f}')
                        } else {
                            ('\u{531}', '\u{561}')
                        }
                    }
                }
            } else {
                if i < 371 {
                    if i < 369 {
                        ('\u{532}', '\u{562}')
                    } else {
                        if i < 370 {
                            ('\u{533}', '\u{563}')
                        } else {
                            ('\u{534}', '\u{564}')
                        }
                    }
                } else {
                    if i < 373 {
                        if i < 372 {
                            ('\u{535}', '\u{565}')
                        } else {
                            ('\u{536}', '\u{566}')
                        }
                    } else {
                        if i < 374 {
                            ('\u{537}', '\u{567}')
                        } else {
                            ('\u{538}', '\u{568}')
                        }
                    }
                }
            }
        }
    } else {
        if i < 387 {
            if i < 381 {
                if i < 378 {
                    if i < 376 {
                        ('\u{539}', '\u{569}')
                    } else {
                        if i < 377 {
                            ('\u{53a}', '\u{56a}')
                        } else {
                            ('\u{53b}', '\u{56b}')
                        }
                    }
                } else {
                    if i < 379 {
                        ('\u{53c}', '\u{56c}')
                    } else {
                        if i < 380 {
                            ('\u{53d}', '\u{56d}')
                        } else {
                            ('\u{53e}', '\u{56e}')
                        }
                    }
                }
            } else {
                if i < 384 {
                    if i < 382 {
                        ('\u{53f}', '\u{56f}')
                    } else {
                        if i < 383 {
                            ('\u{540}', '\u{570}')
                        } else {
                            ('\u{541}', '\u{571}')
                        }
                    }
                } else {
                    if i < 385 {
                        ('\u{542}', '\u{572}')
                    } else {
                        if i < 386 {
                            ('\u{543}', '\u{573}')
                        } else {
                            ('\u{544}', '\u{574}')
                        }
                    }
                }
            }
        } else {
            if i < 393 {
                if i < 390 {
                    if i < 388 {
                        ('\u{545}', '\u{575}')
                    } else {
                        if i < 389 {
                            ('\u{546}', '\u{576}')
                        } else {
                            ('\u{547}', '\u{577}')
                        }
                    }
                } else {
                    if i < 391 {
                        ('\u{548}', '\u{578}')
                    } else {
                        if i < 392 {
                            ('\u{549}', '\u{579}')
                        } else {
                            ('\u{54a}', '\u{57a}')
                        }
                    }
                }
            } else {
                if i < 396 {
                    if i < 394 {
                        ('\u{54b}', '\u{57b}')
                    } else {
                        if i < 395 {
                            ('\u{54c}', '\u{57c}')
                        } else {
                            ('\u{54d}', '\u{57d}')
                        }
                    }
                } else {
                    if i < 398 {
                        if i < 397 {
                            ('\u{54e}', '\u{57e}')
                        } else {
                            ('\u{54f}', '\u{57f}')
                        }
                    } else {
                        if i < 399 {
                            ('\u{550}', '\u{580}')
                        } else {
                            ('\u{551}', '\u{581}')
                        }
                    }
                }
            }
        }
    }
}

fn pair_exec_block08(i: usize) -> (p: (char, char))
    requires
        400 <= i < 450,
    ensures
        p == pair_block08(i as int),
{
    if i < 425 {
        if i < 412 {
            if i < 406 {
                if i < 403 {
                    if i < 401 {
                        ('\u{552}', '\u{582}')
                    } else {
                        if i < 402 {
                            ('\u{553}', '\u{583}')
                        } else {
                            ('\u{554}', '\u{584}')
                        }
                    }
                } else {
                    if i < 404 {
                        ('\u{555}', '\u{585}')
                    } else {
                        if i < 405 {
                            ('\u{556}', '\u{586}')
                        } else {
                            ('\u{10a0}', '\u{2d00}')
                        }
                    }
                }
            } else {
                if i < 409 {
                    if i < 407 {
                        ('\u{10a1}', '\u{2d01}')
                    } else {
                        if i < 408 {
                            ('\u{10a2}', '\u{2d02}')
                        } else {
                            ('\u{10a3}', '\u{2d03}')
                        }
                    }
                } else {
                    if i < 410 {
                        ('\u{10a4}', '\u{2d04}')
                    } else {
                        if i < 411 {
                            ('\u{10a5}', '\u{2d05}')
                        } else {
                            ('\u{10a6}', '\u{2d06}')
                        }
                    }
                }
            }
        } else {
            if i < 418 {
                if i < 415 {
                    if i < 413 {
                        ('\u{10a7}', '\u{2d07}')
                    } else {
                        if i < 414 {
                            ('\u{10a8}', '\u{2d08}')
                        } else {
                            ('\u{10a9}', '\u{2d09}')
                        }
                    }
                } else {
                    if i < 416 {
                        ('\u{10aa}', '\u{2d0a}')
                    } else {
                        if i < 417 {
                            ('\u{10ab}', '\u{2d0b}')
                        } else {
                            ('\u{10ac}', '\u{2d0c}')
                        }
                    }
                }
            } else {
                if i < 421 {
                    if i < 419 {
                        ('\u{10ad}', '\u{2d0d}')
                    } else {
                        if i < 420 {
                            ('\u{10ae}', '\u{2d0e}')
                        } else {
                            ('\u{10af}', '\u{2d0f}')
                        }
                    }
                } else {
                    if i < 423 {
                        if i < 422 {
                            ('\u{10b0}', '\u{2d10}')
                        } else {
                            ('\u{10b1}', '\u{2d11}')
                        }
                    } else {
                        if i < 424 {
                            ('\u{10b2}', '\u{2d12}')
                        } else {
                            ('\u{10b3}', '\u{2d13}')
                        }
                    }
                }
            }
        }
    } else {
        if i < 437 {
            if i < 431 {
                if i < 428 {
                    if i < 426 {
                        ('\u{10b4}', '\u{2d14}')
                    } else {
                        if i < 427 {
                            ('\u{10b5}', '\u{2d15}')
                        } else {
                            ('\u{10b6}', '\u{2d16}')
                        }
                    }
                } else {
                    if i < 429 {
                        ('\u{10b7}', '\u{2d17}')
                    } else {
                        if i < 430 {
                            ('\u{10b8}', '\u{2d18}')
                        } else {
                            ('\u{10b9}', '\u{2d19}')
                        }
                    }
                }
            } else {
                if i < 434 {
                    if i < 432 {
                        ('\u{10ba}', '\u{2d1a}')
                    } else {
                        if i < 433 {
                            ('\u{10bb}', '\u{2d1b}')
                        } else {
                            ('\u{10bc}', '\u{2d1c}')
                        }
                    }
                } else {
                    if i < 435 {
                        ('\u{10bd}', '\u{2d1d}')
                    } else {
                        if i < 436 {
                            ('\u{10be}', '\u{2d1e}')
                        } else {
                            ('\u{10bf}', '\u{2d1f}')
                        }
                    }
                }
            }
        } else {
            if i < 443 {
                if i < 440 {
                    if i < 438 {
                        ('\u{10c0}', '\u{2d20}')
                    } else {
                        if i < 439 {
                            ('\u{10c1}', '\u{2d21}')
                        } else {
                            ('\u{10c2}', '\u{2d22}')
                        }
                    }
                } else {
                    if i < 441 {
                        ('\u{10c3}', '\u{2d23}')
                    } else {
                        if i < 442 {
                            ('\u{10c4}', '\u{2d24}')
                        } else {
                            ('\u{10c5}', '\u{2d25}')
                        }
                    }
                }
            } else {
                if i < 446 {
                    if i < 444 {
                        ('\u{1e00}', '\u{1e01}')
                    } else {
                        if i < 445 {
                            ('\u{1e02}', '\u{1e03}')
                        } else {
                            ('\u{1e04}', '\u{1e05}')
                        }
                    }
                } else {
                    if i < 448 {
                        if i < 447 {
                            ('\u{1e06}', '\u{1e07}')
                        } else {
                            ('\u{1e08}', '\u{1e09}')
                        }
                    } else {
                        if i < 449 {
                            ('\u{1e0a}', '\u{1e0b}')
                        } else {
                            ('\u{1e0c}', '\u{1e0d}')
                        }
                    }
                }
            }
        }
    }
}

fn pair_exec_block09(i: usize) -> (p: (char, char))
    requires
        450 <= i < 500,
    ensures
        p == pair_block09(i as int),
{
    if i < 475 {
        if i < 462 {
            if i < 456 {
                if i < 453 {
                    if i < 451 {
                        ('\u{1e0e}', '\u{1e0f}')
                    } else {
                        if i < 452 {
                            ('\u{1e10}', '\u{1e11}')
                        } else {
                            ('\u{1e12}', '\u{1e13}')
                        }
                    }
                } else {
                    if i < 454 {
                        ('\u{1e14}', '\u{1e15}')
                    } else {
                        if i < 455 {
                            ('\u{1e16}', '\u{1e17}')
                        } else {
                            ('\u{1e18}', '\u{1e19}')
                        }
                    }
                }
            } else {
                if i < 459 {
                    if i < 457 {
                        ('\u{1e1a}', '\u{1e1b}')
                    } else {
                        if i < 458 {
                            ('\u{1e1c}', '\u{1e1d}')
                        } else {
                            ('\u{1e1e}', '\u{1e1f}')
                        }
                    }
                } else {
                    if i < 460 {
                        ('\u{1e20}', '\u{1e21}')
                    } else {
                        if i < 461 {
                            ('\u{1e22}', '\u{1e23}')
                        } else {
                            ('\u{1e24}', '\u{1e25}')
                        }
                    }
                }
            }
        } else {
            if i < 468 {
                if i < 465 {
                    if i < 463 {
                        ('\u{1e26}', '\u{1e27}')
                    } else {
                        if i < 464 {
                            ('\u{1e28}', '\u{1e29}')
                        } else {
                            ('\u{1e2a}', '\u{1e2b}')
                        }
                    }
                } else {
                    if i < 466 {
                        ('\u{1e2c}', '\u{1e2d}')
                    } else {
                        if i < 467 {
                            ('\u{1e2e}', '\u{1e2f}')
                        } else {
                            ('\u{1e30}', '\u{1e31}')
                        }
                    }
                }
            } else {
                if i < 471 {
                    if i < 469 {
                        ('\u{1e32}', '\u{1e33}')
                    } else {
                        if i < 470 {
                            ('\u{1e34}', '\u{1e35}')
                        } else {
                            ('\u{1e36}', '\u{1e37}')
                        }
                    }
                } else {
                    if i < 473 {
                        if i < 472 {
                            ('\u{1e38}', '\u{1e39}')
                        } else {
                            ('\u{1e3a}', '\u{1e3b}')
                        }
                    } else {
                        if i < 474 {
                            ('\u{1e3c}', '\u{1e3d}')
                        } else {
                            ('\u{1e3e}', '\u{1e3f}')
                        }
                    }
                }
            }
        }
    } else {
        if i < 487 {
            if i < 481 {
                if i < 478 {
                    if i < 476 {
                        ('\u{1e40}', '\u{1e41}')
                    } else {
                        if i < 477 {
                            ('\u{1e42}', '\u{1e43}')
                        } else {
                            ('\u{1e44}', '\u{1e45}')
                        }
                    }
                } else {
                    if i < 479 {
                        ('\u{1e46}', '\u{1e47}')
                    } else {
                        if i < 480 {
                            ('\u{1e48}', '\u{1e49}')
                        } else {
                            ('\u{1e4a}', '\u{1e4b}')
                        }
                    }
                }
            } else {
                if i < 484 {
                    if i < 482 {
                        ('\u{1e4c}', '\u{1e4d}')
                    } else {
                        if i < 483 {
                            ('\u{1e4e}', '\u{1e4f}')
                        } else {
                            ('\u{1e50}', '\u{1e51}')
                        }
                    }
                } else {
                    if i < 485 {
                        ('\u{1e52}', '\u{1e53}')
                    } else {
                        if i < 486 {
                            ('\u{1e54}', '\u{1e55}')
                        } else {
                            ('\u{1e56}', '\u{1e57}')
                        }
                    }
                }
            }
        } else {
            if i < 493 {
                if i < 490 {
                    if i < 488 {
                        ('\u{1e58}', '\u{1e59}')
                    } else {
                        if i < 489 {
                            ('\u{1e5a}', '\u{1e5b}')
                        } else {
                            ('\u{1e5c}', '\u{1e5d}')
                        }
                    }
                } else {
                    if i < 491 {
                        ('\u{1e5e}', '\u{1e5f}')
                    } else {
                        if i < 492 {
                            ('\u{1e60}', '\u{1e61}')
                        } else {
                            ('\u{1e62}', '\u{1e63}')
                        }
                    }
                }
            } else {
                if i < 496 {
                    if i < 494 {
                        ('\u{1e64}', '\u{1e65}')
                    } else {
                        if i < 495 {
                            ('\u{1e66}', '\u{1e67}')
                        } else {
                            ('\u{1e68}', '\u{1e69}')
                        }
                    }
                } else {
                    if i < 498 {
                        if i < 497 {
                            ('\u{1e6a}', '\u{1e6b}')
                        } else {
                            ('\u{1e6c}', '\u{1e6d}')
                        }
                    } else {
                        if i < 499 {
                            ('\u{1e6e}', '\u{1e6f}')
                        } else {
                            ('\u{1e70}', '\u{1e71}')
                        }
                    }
                }
            }
        }
    }
}

fn pair_exec_block10(i: usize) -> (p: (char, char))
    requires
        500 <= i < 550,
    ensures
        p == pair_block10(i as int),
{
    if i < 525 {
        if i < 512 {
            if i < 506 {
                if i < 503 {
                    if i < 501 {
                        ('\u{1e72}', '\u{1e73}')
                    } else {
                        if i < 502 {
                            ('\u{1e74}', '\u{1e75}')
                        } else {
                            ('\u{1e76}', '\u{1e77}')
                        }
                    }
                } else {
                    if i < 504 {
                        ('\u{1e78}', '\u{1e79}')
                    } else {
                        if i < 505 {
                            ('\u{1e7a}', '\u{1e7b}')
                        } else {
                            ('\u{1e7c}', '\u{1e7d}')
                        }
                    }
                }
            } else {
                if i < 509 {
                    if i < 507 {
                        ('\u{1e7e}', '\u{1e7f}')
                    } else {
                        if i < 508 {
                            ('\u{1e80}', '\u{1e81}')
                        } else {
                            ('\u{1e82}', '\u{1e83}')
                        }
                    }
                } else {
                    if i < 510 {
                        ('\u{1e84}', '\u{1e85}')
                    } else {
                        if i < 511 {
                            ('\u{1e86}', '\u{1e87}')
                        } else {
                            ('\u{1e88}', '\u{1e89}')
                        }
                    }
                }
            }
        } else {
            if i < 518 {
                if i < 515 {
                    if i < 513 {
                        ('\u{1e8a}', '\u{1e8b}')
                    } else {
                        if i < 514 {
                            ('\u{1e8c}', '\u{1e8d}')
                        } else {
                            ('\u{1e8e}', '\u{1e8f}')
                        }
                    }
                } else {
                    if i < 516 {
                        ('\u{1e90}', '\u{1e91}')
                    } else {
                        if i < 517 {
                            ('\u{1e92}', '\u{1e93}')
                        } else {
                            ('\u{1e94}', '\u{1e95}')
                        }
                    }
                }
            } else {
                if i < 521 {
                    if i < 519 {
                        ('\u{1ea0}', '\u{1ea1}')
                    } else {
                        if i < 520 {
                            ('\u{1ea2}', '\u{1ea3}')
                        } else {
                            ('\u{1ea4}', '\u{1ea5}')
                        }
                    }
                } else {
                    if i < 523 {
                        if i < 522 {
                            ('\u{1ea6}', '\u{1ea7}')
                        } else {
                            ('\u{1ea8}', '\u{1ea9}')
                        }
                    } else {
                        if i < 524 {
                            ('\u{1eaa}', '\u{1eab}')
                        } else {
                            ('\u{1eac}', '\u{1ead}')
                        }
                    }
                }
            }
        }
    } else {
        if i < 537 {
            if i < 531 {
                if i < 528 {
                    if i < 526 {
                        ('\u{1eae}', '\u{1eaf}')
                    } else {
                        if i < 527 {
                            ('\u{1eb0}', '\u{1eb1}')
                        } else {
                            ('\u{1eb2}', '\u{1eb3}')
                        }
                    }
                } else {
                    if i < 529 {
                        ('\u{1eb4}', '\u{1eb5}')
                    } else {
                        if i < 530 {
                            ('\u{1eb6}', '\u{1eb7}')
                        } else {
                            ('\u{1eb8}', '\u{1eb9}')
                        }
                    }
                }
            } else {
                if i < 534 {
                    if i < 532 {
                        ('\u{1eba}', '\u{1ebb}')
                    } else {
                        if i < 533 {
                            ('\u{1ebc}', '\u{1ebd}')
                        } else {
                            ('\u{1ebe}', '\u{1ebf}')
                        }
                    }
                } else {
                    if i < 535 {
                        ('\u{1ec0}', '\u{1ec1}')
                    } else {
                        if i < 536 {
                            ('\u{1ec2}', '\u{1ec3}')
                        } else {
                            ('\u{1ec4}', '\u{1ec5}')
                        }
                    }
                }
            }
        } else {
            if i < 543 {
                if i < 540 {
                    if i < 538 {
                        ('\u{1ec6}', '\u{1ec7}')
                    } else {
                        if i < 539 {
                            ('\u{1ec8}', '\u{1ec9}')
                        } else {
                            ('\u{1eca}', '\u{1ecb}')
                        }
                    }
                } else {
                    if i < 541 {
                        ('\u{1ecc}', '\u{1ecd}')
                    } else {
                        if i < 542 {
                            ('\u{1ece}', '\u{1ecf}')
                        } else {
                            ('\u{1ed0}', '\u{1ed1}')
                        }
                    }
                }
            } else {
                if i < 546 {
                    if i < 544 {
                        ('\u{1ed2}', '\u{1ed3}')
                    } else {
                        if i < 545 {
                            ('\u{1ed4}', '\u{1ed5}')
                        } else {
                            ('\u{1ed6}', '\u{1ed7}')
                        }
                    }
                } else {
                    if i < 548 {
                        if i < 547 {
                            ('\u{1ed8}', '\u{1ed9}')
                        } else {
                            ('\u{1eda}', '\u{1edb}')
                        }
                    } else {
                        if i < 549 {
                            ('\u{1edc}', '\u{1edd}')
                        } else {
                            ('\u{1ede}', '\u{1edf}')
                        }
                    }
                }
            }
        }
    }
}

fn pair_exec_block11(i: usize) -> (p: (char, char))
    requires
        550 <= i < 600,
    ensures
        p == pair_block11(i as int),
{
    if i < 575 {
        if i < 562 {
            if i < 556 {
                if i < 553 {
                    if i < 551 {
                        ('\u{1ee0}', '\u{1ee1}')
                    } else {
                        if i < 552 {
                            ('\u{1ee2}', '\u{1ee3}')
                        } else {
                            ('\u{1ee4}', '\u{1ee5}')
                        }
                    }
                } else {
                    if i < 554 {
                        ('\u{1ee6}', '\u{1ee7}')
                    } else {
                        if i < 555 {
                            ('\u{1ee8}', '\u{1ee9}')
                        } else {
                            ('\u{1eea}', '\u{1eeb}')
                        }
                    }
                }
            } else {
                if i < 559 {
                    if i < 557 {
                        ('\u{1eec}', '\u{1eed}')
                    } else {
                        if i < 558 {
                            ('\u{1eee}', '\u{1eef}')
                        } else {
                            ('\u{1ef0}', '\u{1ef1}')
                        }
                    }
                } else {
                    if i < 560 {
                        ('\u{1ef2}', '\u{1ef3}')
                    } else {
                        if i < 561 {
                            ('\u{1ef4}', '\u{1ef5}')
                        } else {
                            ('\u{1ef6}', '\u{1ef7}')
                        }
                    }
                }
            }
        } else {
            if i < 568 {
                if i < 565 {
                    if i < 563 {
                        ('\u{1ef8}', '\u{1ef9}')
                    } else {
                        if i < 564 {
                            ('\u{1f08}', '\u{1f00}')
                        } else {
                            ('\u{1f09}', '\u{1f01}')
                        }
                    }
                } else {
                    if i < 566 {
                        ('\u{1f0a}', '\u{1f02}')
                    } else {
                        if i < 567 {
                            ('\u{1f0b}', '\u{1f03}')
                        } else {
                            ('\u{1f0c}', '\u{1f04}')
                        }
                    }
                }
            } else {
                if i < 571 {
                    if i < 569 {
                        ('\u{1f0d}', '\u{1f05}')
                    } else {
                        if i < 570 {
                            ('\u{1f0e}', '\u{1f06}')
                        } else {
                            ('\u{1f0f}', '\u{1f07}')
                        }
                    }
                } else {
                    if i < 573 {
                        if i < 572 {
                            ('\u{1f18}', '\u{1f10}')
                        } else {
                            ('\u{1f19}', '\u{1f11}')
                        }
                    } else {
                        if i < 574 {
                            ('\u{1f1a}', '\u{1f12}')
                        } else {
                            ('\u{1f1b}', '\u{1f13}')
                        }
                    }
                }
            }
        }
    } else {
        if i < 587 {
            if i < 581 {
                if i < 578 {
                    if i < 576 {
                        ('\u{1f1c}', '\u{1f14}')
                    } else {
                        if i < 577 {
                            ('\u{1f1d}', '\u{1f15}')
                        } else {
                            ('\u{1f28}', '\u{1f20}')
                        }
                    }
                } else {
                    if i < 579 {
                        ('\u{1f29}', '\u{1f21}')
                    } else {
                        if i < 580 {
                            ('\u{1f2a}', '\u{1f22}')
                        } else {
                            ('\u{1f2b}', '\u{1f23}')
                        }
                    }
                }
            } else {
                if i < 584 {
                    if i < 582 {
                        ('\u{1f2c}', '\u{1f24}')
                    } else {
                        if i < 583 {
                            ('\u{1f2d}', '\u{1f25}')
                        } else {
                            ('\u{1f2e}', '\u{1f26}')
                        }
                    }
                } else {
                    if i < 585 {
                        ('\u{1f2f}', '\u{1f27}')
                    } else {
                        if i < 586 {
                            ('\u{1f38}', '\u{1f30}')
                        } else {
                            ('\u{1f39}', '\u{1f31}')
                        }
                    }
                }
            }
        } else {
            if i < 593 {
                if i < 590 {
                    if i < 588 {
                        ('\u{1f3a}', '\u{1f32}')
                    } else {
                        if i < 589 {
                            ('\u{1f3b}', '\u{1f33}')
                        } else {
                            ('\u{1f3c}', '\u{1f34}')
                        }
                    }
                } else {
                    if i < 591 {
                        ('\u{1f3d}', '\u{1f35}')
                    } else {
                        if i < 592 {
                            ('\u{1f3e}', '\u{1f36}')
                        } else {
                            ('\u{1f3f}', '\u{1f37}')
                        }
                    }
                }
            } else {
                if i < 596 {
                    if i < 594 {
                        ('\u{1f48}', '\u{1f40}')
                    } else {
                        if i < 595 {
                            ('\u{1f49}', '\u{1f41}')
                        } else {
                            ('\u{1f4a}', '\u{1f42}')
                        }
                    }
                } else {
                    if i < 598 {
                        if i < 597 {
                            ('\u{1f4b}', '\u{1f43}')
                        } else {
                            ('\u{1f4c}', '\u{1f44}')
                        }
                    } else {
                        if i < 599 {
                            ('\u{1f4d}', '\u{1f45}')
                        } else {
                            ('\u{1f59}', '\u{1f51}')
                        }
                    }
                }
            }
        }
    }
}

fn pair_exec_block12(i: usize) -> (p: (char, char))
    requires
        600 <= i < 650,
    ensures
        p == pair_block12(i as int),
{
    if i < 625 {
        if i < 612 {
            if i < 606 {
                if i < 603 {
                    if i < 601 {
                        ('\u{1f5b}', '\u{1f53}')
                    } else {
                        if i < 602 {
                            ('\u{1f5d}', '\u{1f55}')
                        } else {
                            ('\u{1f5f}', '\u{1f57}')
                        }
                    }
                } else {
                    if i < 604 {
                        ('\u{1f68}', '\u{1f60}')
                    } else {
                        if i < 605 {
                            ('\u{1f69}', '\u{1f61}')
                        } else {
                            ('\u{1f6a}', '\u{1f62}')
                        }
                    }
                }
            } else {
                if i < 609 {
                    if i < 607 {
                        ('\u{1f6b}', '\u{1f63}')
                    } else {
                        if i < 608 {
                            ('\u{1f6c}', '\u{1f64}')
                        } else {
                            ('\u{1f6d}', '\u{1f65}')
                        }
                    }
                } else {
                    if i < 610 {
                        ('\u{1f6e}', '\u{1f66}')
                    } else {
                        if i < 611 {
                            ('\u{1f6f}', '\u{1f67}')
                        } else {
                            ('\u{1f88}', '\u{1f80}')
                        }
                    }
                }
            }
        } else {
            if i < 618 {
                if i < 615 {
                    if i < 613 {
                        ('\u{1f89}', '\u{1f81}')
                    } else {
                        if i < 614 {
                            ('\u{1f8a}', '\u{1f82}')
                        } else {
                            ('\u{1f8b}', '\u{1f83}')
                        }
                    }
                } else {
                    if i < 616 {
                        ('\u{1f8c}', '\u{1f84}')
                    } else {
                        if i < 617 {
                            ('\u{1f8d}', '\u{1f85}')
                        } else {
                            ('\u{1f8e}', '\u{1f86}')
                        }
                    }
                }
            } else {
                if i < 621 {
                    if i < 619 {
                        ('\u{1f8f}', '\u{1f87}')
                    } else {
                        if i < 620 {
                            ('\u{1f98}', '\u{1f90}')
                        } else {
                            ('\u{1f99}', '\u{1f91}')
                        }
                    }
                } else {
                    if i < 623 {
                        if i < 622 {
                            ('\u{1f9a}', '\u{1f92}')
                        } else {
                            ('\u{1f9b}', '\u{1f93}')
                        }
                    } else {
                        if i < 624 {
                            ('\u{1f9c}', '\u{1f94}')
                        } else {
                            ('\u{1f9d}', '\u{1f95}')
                        }
                    }
                }
            }
        }
    } else {
        if i < 637 {
            if i < 631 {
                if i < 628 {
                    if i < 626 {
                        ('\u{1f9e}', '\u{1f96}')
                    } else {
                        if i < 627 {
                            ('\u{1f9f}', '\u{1f97}')
                        } else {
                            ('\u{1fa8}', '\u{1fa0}')
                        }
                    }
                } else {
                    if i < 629 {
                        ('\u{1fa9}', '\u{1fa1}')
                    } else {
                        if i < 630 {
                            ('\u{1faa}', '\u{1fa2}')
                        } else {
                            ('\u{1fab}', '\u{1fa3}')
                        }
                    }
                }
            } else {
                if i < 634 {
                    if i < 632 {
                        ('\u{1fac}', '\u{1fa4}')
                    } else {
                        if i < 633 {
                            ('\u{1fad}', '\u{1fa5}')
                        } else {
                            ('\u{1fae}', '\u{1fa6}')
                        }
                    }
                } else {
                    if i < 635 {
                        ('\u{1faf}', '\u{1fa7}')
                    } else {
                        if i < 636 {
                            ('\u{1fb8}', '\u{1fb0}')
                        } else {
                            ('\u{1fb9}', '\u{1fb1}')
                        }
                    }
                }
            }
        } else {
            if i < 643 {
                if i < 640 {
                    if i < 638 {
                        ('\u{1fba}', '\u{1f70}')
                    } else {
                        if i < 639 {
                            ('\u{1fbb}', '\u{1f71}')
                        } else {
                            ('\u{1fbc}', '\u{1fb3}')
                        }
                    }
                } else {
                    if i < 641 {
                        ('\u{1fc8}', '\u{1f72}')
                    } else {
                        if i < 642 {
                            ('\u{1fc9}', '\u{1f73}')
                        } else {
                            ('\u{1fca}', '\u{1f74}')
                        }
                    }
                }
            } else {
                if i < 646 {
                    if i < 644 {
                        ('\u{1fcb}', '\u{1f75}')
                    } else {
                        if i < 645 {
                            ('\u{1fcc}', '\u{1fc3}')
                        } else {
                            ('\u{1fd8}', '\u{1fd0}')
                        }
                    }
                } else {
                    if i < 648 {
                        if i < 647 {
                            ('\u{1fd9}', '\u{1fd1}')
                        } else {
                            ('\u{1fda}', '\u{1f76}')
                        }
                    } else {
                        if i < 649 {
                            ('\u{1fdb}', '\u{1f77}')
                        } else {
                            ('\u{1fe8}', '\u{1fe0}')
                        }
                    }
                }
            }
        }
    }
}

fn pair_exec_block13(i: usize) -> (p: (char, char))
    requires
        650 <= i < 700,
    ensures
        p == pair_block13(i as int),
{
    if i < 675 {
        if i < 662 {
            if i < 656 {
                if i < 653 {
                    if i < 651 {
                        ('\u{1fe9}', '\u{1fe1}')
                    } else {
                        if i < 652 {
                            ('\u{1fea}', '\u{1f7a}')
                        } else {
                            ('\u{1feb}', '\u{1f7b}')
                        }
                    }
                } else {
                    if i < 654 {
                        ('\u{1fec}', '\u{1fe5}')
                    } else {
                        if i < 655 {
                            ('\u{1ff8}', '\u{1f78}')
                        } else {
                            ('\u{1ff9}', '\u{1f79}')
                        }
                    }
                }
            } else {
                if i < 659 {
                    if i < 657 {
                        ('\u{1ffa}', '\u{1f7c}')
                    } else {
                        if i < 658 {
                            ('\u{1ffb}', '\u{1f7d}')
                        } else {
                            ('\u{1ffc}', '\u{1ff3}')
                        }
                    }
                } else {
                    if i < 660 {
                        ('\u{2126}', '\u{3c9}')
                    } else {
                        if i < 661 {
                            ('\u{212a}', '\u{6b}')
                        } else {
                            ('\u{212b}', '\u{e5}')
                        }
                    }
                }
            }
        } else {
            if i < 668 {
                if i < 665 {
                    if i < 663 {
                        ('\u{2160}', '\u{2170}')
                    } else {
                        if i < 664 {
                            ('\u{2161}', '\u{2171}')
                        } else {
                            ('\u{2162}', '\u{2172}')
                        }
                    }
                } else {
                    if i < 666 {
                        ('\u{2163}', '\u{2173}')
                    } else {
                        if i < 667 {
                            ('\u{2164}', '\u{2174}')
                        } else {
                            ('\u{2165}', '\u{2175}')
                        }
                    }
                }
            } else {
                if i < 671 {
                    if i < 669 {
                        ('\u{2166}', '\u{2176}')
                    } else {
                        if i < 670 {
                            ('\u{2167}', '\u{2177}')
                        } else {
                            ('\u{2168}', '\u{2178}')
                        }
                    }
                } else {
                    if i < 673 {
                        if i < 672 {
                            ('\u{2169}', '\u{2179}')
                        } else {
                            ('\u{216a}', '\u{217a}')
                        }
                    } else {
                        if i < 674 {
                            ('\u{216b}', '\u{217b}')
                        } else {
                            ('\u{216c}', '\u{217c}')
                        }
                    }
                }
            }
        }
    } else {
        if i < 687 {
            if i < 681 {
                if i < 678 {
                    if i < 676 {
                        ('\u{216d}', '\u{217d}')
                    } else {
                        if i < 677 {
                            ('\u{216e}', '\u{217e}')
                        } else {
                            ('\u{216f}', '\u{217f}')
                        }
                    }
                } else {
                    if i < 679 {
                        ('\u{24b6}', '\u{24d0}')
                    } else {
                        if i < 680 {
                            ('\u{24b7}', '\u{24d1}')
                        } else {
                            ('\u{24b8}', '\u{24d2}')
                        }
                    }
                }
            } else {
                if i < 684 {
                    if i < 682 {
                        ('\u{24b9}', '\u{24d3}')
                    } else {
                        if i < 683 {
                            ('\u{24ba}', '\u{24d4}')
                        } else {
                            ('\u{24bb}', '\u{24d5}')
                        }
                    }
                } else {
                    if i < 685 {
                        ('\u{24bc}', '\u{24d6}')
                    } else {
                        if i < 686 {
                            ('\u{24bd}', '\u{24d7}')
                        } else {
                            ('\u{24be}', '\u{24d8}')
                        }
                    }
                }
            }
        } else {
            if i < 693 {
                if i < 690 {
                    if i < 688 {
                        ('\u{24bf}', '\u{24d9}')
                    } else {
                        if i < 689 {
                            ('\u{24c0}', '\u{24da}')
                        } else {
                            ('\u{24c1}', '\u{24db}')
                        }
                    }
                } else {
                    if i < 691 {
                        ('\u{24c2}', '\u{24dc}')
                    } else {
                        if i < 692 {
                            ('\u{24c3}', '\u{24dd}')
                        } else {
                            ('\u{24c4}', '\u{24de}')
                        }
                    }
                }
            } else {
                if i < 696 {
                    if i < 694 {
                        ('\u{24c5}', '\u{24df}')
                    } else {
                        if i < 695 {
                            ('\u{24c6}', '\u{24e0}')
                        } else {
                            ('\u{24c7}', '\u{24e1}')
                        }
                    }
                } else {
                    if i < 698 {
                        if i < 697 {
                            ('\u{24c8}', '\u{24e2}')
                        } else {
                            ('\u{24c9}', '\u{24e3}')
                        }
                    } else {
                        if i < 699 {
                            ('\u{24ca}', '\u{24e4}')
                        } else {
                            ('\u{24cb}', '\u{24e5}')
                        }
                    }
                }
            }
        }
    }
}

fn pair_exec_block14(i: usize) -> (p: (char, char))
    requires
        700 <= i < 750,
    ensures
        p == pair_block14(i as int),
{
    if i < 725 {
        if i < 712 {
            if i < 706 {
                if i < 703 {
                    if i < 701 {
                        ('\u{24cc}', '\u{24e6}')
                    } else {
                        if i < 702 {
                            ('\u{24cd}', '\u{24e7}')
                        } else {
                            ('\u{24ce}', '\u{24e8}')
                        }
                    }
                } else {
                    if i < 704 {
                        ('\u{24cf}', '\u{24e9}')
                    } else {
                        if i < 705 {
                            ('\u{2c00}', '\u{2c30}')
                        } else {
                            ('\u{2c01}', '\u{2c31}')
                        }
                    }
                }
            } else {
                if i < 709 {
                    if i < 707 {
                        ('\u{2c02}', '\u{2c32}')
                    } else {
                        if i < 708 {
                            ('\u{2c03}', '\u{2c33}')
                        } else {
                            ('\u{2c04}', '\u{2c34}')
                        }
                    }
                } else {
                    if i < 710 {
                        ('\u{2c05}', '\u{2c35}')
                    } else {
                        if i < 711 {
                            ('\u{2c06}', '\u{2c36}')
                        } else {
                            ('\u{2c07}', '\u{2c37}')
                        }
                    }
                }
            }
        } else {
            if i < 718 {
                if i < 715 {
                    if i < 713 {
                        ('\u{2c08}', '\u{2c38}')
                    } else {
                        if i < 714 {
                            ('\u{2c09}', '\u{2c39}')
                        } else {
                            ('\u{2c0a}', '\u{2c3a}')
                        }
                    }
                } else {
                    if i < 716 {
                        ('\u{2c0b}', '\u{2c3b}')
                    } else {
                        if i < 717 {
                            ('\u{2c0c}', '\u{2c3c}')
                        } else {
                            ('\u{2c0d}', '\u{2c3d}')
                        }
                    }
                }
            } else {
                if i < 721 {
                    if i < 719 {
                        ('\u{2c0e}', '\u{2c3e}')
                    } else {
                        if i < 720 {
                            ('\u{2c0f}', '\u{2c3f}')
                        } else {
                            ('\u{2c10}', '\u{2c40}')
                        }
                    }
                } else {
                    if i < 723 {
                        if i < 722 {
                            ('\u{2c11}', '\u{2c41}')
                        } else {
                            ('\u{2c12}', '\u{2c42}')
                        }
                    } else {
                        if i < 724 {
                            ('\u{2c13}', '\u{2c43}')
                        } else {
                            ('\u{2c14}', '\u{2c44}')
                        }
                    }
                }
            }
        }
    } else {
        if i < 737 {
            if i < 731 {
                if i < 728 {
                    if i < 726 {
                        ('\u{2c15}', '\u{2c45}')
                    } else {
                        if i < 727 {
                            ('\u{2c16}', '\u{2c46}')
                        } else {
                            ('\u{2c17}', '\u{2c47}')
                        }
                    }
                } else {
                    if i < 729 {
                        ('\u{2c18}', '\u{2c48}')
                    } else {
                        if i < 730 {
                            ('\u{2c19}', '\u{2c49}')
                        } else {
                            ('\u{2c1a}', '\u{2c4a}')
                        }
                    }
                }
            } else {
                if i < 734 {
                    if i < 732 {
                        ('\u{2c1b}', '\u{2c4b}')
                    } else {
                        if i < 733 {
                            ('\u{2c1c}', '\u{2c4c}')
                        } else {
                            ('\u{2c1d}', '\u{2c4d}')
                        }
                    }
                } else {
                    if i < 735 {
                        ('\u{2c1e}', '\u{2c4e}')
                    } else {
                        if i < 736 {
                            ('\u{2c1f}', '\u{2c4f}')
                        } else {
                            ('\u{2c20}', '\u{2c50}')
                        }
                    }
                }
            }
        } else {
            if i < 743 {
                if i < 740 {
                    if i < 738 {
                        ('\u{2c21}', '\u{2c51}')
                    } else {
                        if i < 739 {
                            ('\u{2c22}', '\u{2c52}')
                        } else {
                            ('\u{2c23}', '\u{2c53}')
                        }
                    }
                } else {
                    if i < 741 {
                        ('\u{2c24}', '\u{2c54}')
                    } else {
                        if i < 742 {
                            ('\u{2c25}', '\u{2c55}')
                        } else {
                            ('\u{2c26}', '\u{2c56}')
                        }
                    }
                }
            } else {
                if i < 746 {
                    if i < 744 {
                        ('\u{2c27}', '\u{2c57}')
                    } else {
                        if i < 745 {
                            ('\u{2c28}', '\u{2c58}')
                        } else {
                            ('\u{2c29}', '\u{2c59}')
                        }
                    }
                } else {
                    if i < 748 {
                        if i < 747 {
                            ('\u{2c2a}', '\u{2c5a}')
                        } else {
                            ('\u{2c2b}', '\u{2c5b}')
                        }
                    } else {
                        if i < 749 {
                            ('\u{2c2c}', '\u{2c5c}')
                        } else {
                            ('\u{2c2d}', '\u{2c5d}')
                        }
                    }
                }
            }
        }
    }
}

fn pair_exec_block15(i: usize) -> (p: (char, char))
    requires
        750 <= i < 800,
    ensures
        p == pair_block15(i as int),
{
    if i < 775 {
        if i < 762 {
            if i < 756 {
                if i < 753 {
                    if i < 751 {
                        ('\u{2c2e}', '\u{2c5e}')
                    } else {
                        if i < 752 {
                            ('\u{2c80}', '\u{2c81}')
                        } else {
                            ('\u{2c82}', '\u{2c83}')
                        }
                    }
                } else {
                    if i < 754 {
                        ('\u{2c84}', '\u{2c85}')
                    } else {
                        if i < 755 {
                            ('\u{2c86}', '\u{2c87}')
                        } else {
                            ('\u{2c88}', '\u{2c89}')
                        }
                    }
                }
            } else {
                if i < 759 {
                    if i < 757 {
                        ('\u{2c8a}', '\u{2c8b}')
                    } else {
                        if i < 758 {
                            ('\u{2c8c}', '\u{2c8d}')
                        } else {
                            ('\u{2c8e}', '\u{2c8f}')
                        }
                    }
                } else {
                    if i < 760 {
                        ('\u{2c90}', '\u{2c91}')
                    } else {
                        if i < 761 {
                            ('\u{2c92}', '\u{2c93}')
                        } else {
                            ('\u{2c94}', '\u{2c95}')
                        }
                    }
                }
            }
        } else {
            if i < 768 {
                if i < 765 {
                    if i < 763 {
                        ('\u{2c96}', '\u{2c97}')
                    } else {
                        if i < 764 {
                            ('\u{2c98}', '\u{2c99}')
                        } else {
                            ('\u{2c9a}', '\u{2c9b}')
                        }
                    }
                } else {
                    if i < 766 {
                        ('\u{2c9c}', '\u{2c9d}')
                    } else {
                        if i < 767 {
                            ('\u{2c9e}', '\u{2c9f}')
                        } else {
                            ('\u{2ca0}', '\u{2ca1}')
                        }
                    }
                }
            } else {
                if i < 771 {
                    if i < 769 {
                        ('\u{2ca2}', '\u{2ca3}')
                    } else {
                        if i < 770 {
                            ('\u{2ca4}', '\u{2ca5}')
                        } else {
                            ('\u{2ca6}', '\u{2ca7}')
                        }
                    }
                } else {
                    if i < 773 {
                        if i < 772 {
                            ('\u{2ca8}', '\u{2ca9}')
                        } else {
                            ('\u{2caa}', '\u{2cab}')
                        }
                    } else {
                        if i < 774 {
                            ('\u{2cac}', '\u{2cad}')
                        } else {
                            ('\u{2cae}', '\u{2caf}')
                        }
                    }
                }
            }
        }
    } else {
        if i < 787 {
            if i < 781 {
                if i < 778 {
                    if i < 776 {
                        ('\u{2cb0}', '\u{2cb1}')
                    } else {
                        if i < 777 {
                            ('\u{2cb2}', '\u{2cb3}')
                        } else {
                            ('\u{2cb4}', '\u{2cb5}')
                        }
                    }
                } else {
                    if i < 779 {
                        ('\u{2cb6}', '\u{2cb7}')
                    } else {
                        if i < 780 {
                            ('\u{2cb8}', '\u{2cb9}')
                        } else {
                            ('\u{2cba}', '\u{2cbb}')
                        }
                    }
                }
            } else {
                if i < 784 {
                    if i < 782 {
                        ('\u{2cbc}', '\u{2cbd}')
                    } else {
                        if i < 783 {
                            ('\u{2cbe}', '\u{2cbf}')
                        } else {
                            ('\u{2cc0}', '\u{2cc1}')
                        }
                    }
                } else {
                    if i < 785 {
                        ('\u{2cc2}', '\u{2cc3}')
                    } else {
                        if i < 786 {
                            ('\u{2cc4}', '\u{2cc5}')
                        } else {
                            ('\u{2cc6}', '\u{2cc7}')
                        }
                    }
                }
            }
        } else {
            if i < 793 {
                if i < 790 {
                    if i < 788 {
                        ('\u{2cc8}', '\u{2cc9}')
                    } else {
                        if i < 789 {
                            ('\u{2cca}', '\u{2ccb}')
                        } else {
                            ('\u{2ccc}', '\u{2ccd}')
                        }
                    }
                } else {
                    if i < 791 {
                        ('\u{2cce}', '\u{2ccf}')
                    } else {
                        if i < 792 {
                            ('\u{2cd0}', '\u{2cd1}')
                        } else {
                            ('\u{2cd2}', '\u{2cd3}')
                        }
                    }
                }
            } else {
                if i < 796 {
                    if i < 794 {
                        ('\u{2cd4}', '\u{2cd5}')
                    } else {
                        if i < 795 {
                            ('\u{2cd6}', '\u{2cd7}')
                        } else {
                            ('\u{2cd8}', '\u{2cd9}')
                        }
                    }
                } else {
                    if i < 798 {
                        if i < 797 {
                            ('\u{2cda}', '\u{2cdb}')
                        } else {
                            ('\u{2cdc}', '\u{2cdd}')
                        }
                    } else {
                        if i < 799 {
                            ('\u{2cde}', '\u{2cdf}')
                        } else {
                            ('\u{2ce0}', '\u{2ce1}')
                        }
                    }
                }
            }
        }
    }
}

fn pair_exec_block16(i: usize) -> (p: (char, char))
    requires
        800 <= i < 850,
    ensures
        p == pair_block16(i as int),
{
    if i < 825 {
        if i < 812 {
            if i < 806 {
                if i < 803 {
                    if i < 801 {
                        ('\u{2ce2}', '\u{2ce3}')
                    } else {
                        if i < 802 {
                            ('\u{ff21}', '\u{ff41}')
                        } else {
                            ('\u{ff22}', '\u{ff42}')
                        }
                    }
                } else {
                    if i < 804 {
                        ('\u{ff23}', '\u{ff43}')
                    } else {
                        if i < 805 {
                            ('\u{ff24}', '\u{ff44}')
                        } else {
                            ('\u{ff25}', '\u{ff45}')
                        }
                    }
                }
            } else {
                if i < 809 {
                    if i < 807 {
                        ('\u{ff26}', '\u{ff46}')
                    } else {
                        if i < 808 {
                            ('\u{ff27}', '\u{ff47}')
                        } else {
                            ('\u{ff28}', '\u{ff48}')
                        }
                    }
                } else {
                    if i < 810 {
                        ('\u{ff29}', '\u{ff49}')
                    } else {
                        if i < 811 {
                            ('\u{ff2a}', '\u{ff4a}')
                        } else {
                            ('\u{ff2b}', '\u{ff4b}')
                        }
                    }
                }
            }
        } else {
            if i < 818 {
                if i < 815 {
                    if i < 813 {
                        ('\u{ff2c}', '\u{ff4c}')
                    } else {
                        if i < 814 {
                            ('\u{ff2d}', '\u{ff4d}')
                        } else {
                            ('\u{ff2e}', '\u{ff4e}')
                        }
                    }
                } else {
                    if i < 816 {
                        ('\u{ff2f}', '\u{ff4f}')
                    } else {
                        if i < 817 {
                            ('\u{ff30}', '\u{ff50}')
                        } else {
                            ('\u{ff31}', '\u{ff51}')
                        }
                    }
                }
            } else {
                if i < 821 {
                    if i < 819 {
                        ('\u{ff32}', '\u{ff52}')
                    } else {
                        if i < 820 {
                            ('\u{ff33}', '\u{ff53}')
                        } else {
                            ('\u{ff34}', '\u{ff54}')
                        }
                    }
                } else {
                    if i < 823 {
                        if i < 822 {
                            ('\u{ff35}', '\u{ff55}')
                        } else {
                            ('\u{ff36}', '\u{ff56}')
                        }
                    } else {
                        if i < 824 {
                            ('\u{ff37}', '\u{ff57}')
                        } else {
                            ('\u{ff38}', '\u{ff58}')
                        }
                    }
                }
            }
        }
    } else {
        if i < 837 {
            if i < 831 {
                if i < 828 {
                    if i < 826 {
                        ('\u{ff39}', '\u{ff59}')
                    } else {
                        if i < 827 {
                            ('\u{ff3a}', '\u{ff5a}')
                        } else {
                            ('\u{10400}', '\u{10428}')
                        }
                    }
                } else {
                    if i < 829 {
                        ('\u{10401}', '\u{10429}')
                    } else {
                        if i < 830 {
                            ('\u{10402}', '\u{1042a}')
                        } else {
                            ('\u{10403}', '\u{1042b}')
                        }
                    }
                }
            } else {
                if i < 834 {
                    if i < 832 {
                        ('\u{10404}', '\u{1042c}')
                    } else {
                        if i < 833 {
                            ('\u{10405}', '\u{1042d}')
                        } else {
                            ('\u{10406}', '\u{1042e}')
                        }
                    }
                } else {
                    if i < 835 {
                        ('\u{10407}', '\u{1042f}')
                    } else {
                        if i < 836 {
                            ('\u{10408}', '\u{10430}')
                        } else {
                            ('\u{10409}', '\u{10431}')
                        }
                    }
                }
            }
        } else {
            if i < 843 {
                if i < 840 {
                    if i < 838 {
                        ('\u{1040a}', '\u{10432}')
                    } else {
                        if i < 839 {
                            ('\u{1040b}', '\u{10433}')
                        } else {
                            ('\u{1040c}', '\u{10434}')
                        }
                    }
                } else {
                    if i < 841 {
                        ('\u{1040d}', '\u{10435}')
                    } else {
                        if i < 842 {
                            ('\u{1040e}', '\u{10436}')
                        } else {
                            ('\u{1040f}', '\u{10437}')
                        }
                    }
                }
            } else {
                if i < 846 {
                    if i < 844 {
                        ('\u{10410}', '\u{10438}')
                    } else {
                        if i < 845 {
                            ('\u{10411}', '\u{10439}')
                        } else {
                            ('\u{10412}', '\u{1043a}')
                        }
                    }
                } else {
                    if i < 848 {
                        if i < 847 {
                            ('\u{10413}', '\u{1043b}')
                        } else {
                            ('\u{10414}', '\u{1043c}')
                        }
                    } else {
                        if i < 849 {
                            ('\u{10415}', '\u{1043d}')
                        } else {
                            ('\u{10416}', '\u{1043e}')
                        }
                    }
                }
            }
        }
    }
}

fn pair_exec_block17(i: usize) -> (p: (char, char))
    requires
        850 <= i < 867,
    ensures
        p == pair_block17(i as int),
{
    if i < 858 {
        if i < 854 {
            if i < 852 {
                if i < 851 {
                    ('\u{10417}', '\u{1043f}')
                } else {
                    ('\u{10418}', '\u{10440}')
                }
            } else {
                if i < 853 {
                    ('\u{10419}', '\u{10441}')
                } else {
                    ('\u{1041a}', '\u{10442}')
                }
            }
        } else {
            if i < 856 {
                if i < 855 {
                    ('\u{1041b}', '\u{10443}')
                } else {
                    ('\u{1041c}', '\u{10444}')
                }
            } else {
                if i < 857 {
                    ('\u{1041d}', '\u{10445}')
                } else {
                    ('\u{1041e}', '\u{10446}')
                }
            }
        }
    } else {
        if i < 862 {
            if i < 860 {
                if i < 859 {
                    ('\u{1041f}', '\u{10447}')
                } else {
                    ('\u{10420}', '\u{10448}')
                }
            } else {
                if i < 861 {
                    ('\u{10421}', '\u{10449}')
                } else {
                    ('\u{10422}', '\u{1044a}')
                }
            }
        } else {
            if i < 864 {
                if i < 863 {
                    ('\u{10423}', '\u{1044b}')
                } else {
                    ('\u{10424}', '\u{1044c}')
                }
            } else {
                if i < 865 {
                    ('\u{10425}', '\u{1044d}')
                } else {
                    if i < 866 {
                        ('\u{10426}', '\u{1044e}')
                    } else {
                        ('\u{10427}', '\u{1044f}')
                    }
                }
            }
        }
    }
}

/// Entry `i` of the mapping, as executable code.
pub(crate) fn pair_exec(i: usize) -> (p: (char, char))
    requires
        i < 867,
    ensures
        p == pair_at(i as int),
{
    if i < 450 {
        if i < 200 {
            if i < 100 {
                if i < 50 {
                    pair_exec_block00(i)
                } else {
                    pair_exec_block01(i)
                }
            } else {
                if i < 150 {
                    pair_exec_block02(i)
                } else {
                    pair_exec_block03(i)
                }
            }
        } else {
            if i < 300 {
                if i < 250 {
                    pair_exec_block04(i)
                } else {
                    pair_exec_block05(i)
                }
            } else {
                if i < 350 {
                    pair_exec_block06(i)
                } else {
                    if i < 400 {
                        pair_exec_block07(i)
                    } else {
                        pair_exec_block08(i)
                    }
                }
            }
        }
    } else {
        if i < 650 {
            if i < 550 {
                if i < 500 {
                    pair_exec_block09(i)
                } else {
                    pair_exec_block10(i)
                }
            } else {
                if i < 600 {
                    pair_exec_block11(i)
                } else {
                    pair_exec_block12(i)
                }
            }
        } else {
            if i < 750 {
                if i < 700 {
                    pair_exec_block13(i)
                } else {
                    pair_exec_block14(i)
                }
            } else {
                if i < 800 {
                    pair_exec_block15(i)
                } else {
                    if i < 850 {
                        pair_exec_block16(i)
                    } else {
                        pair_exec_block17(i)
                    }
                }
            }
        }
    }
}

proof fn lemma_sorted_part00()
    ensures
        forall|i: int| 0 <= i < 50 ==> ((#[trigger] upper_at(i)) as u32) < (upper_at(i + 1) as u32),
{
    assert forall|i: int| 0 <= i < 50 implies ((#[trigger] upper_at(i)) as u32) < (upper_at(i + 1) as u32) by {
        assert(0 <= i < 50);
    }
}

proof fn lemma_sorted_part01()
    ensures
        forall|i: int| 50 <= i < 100 ==> ((#[trigger] upper_at(i)) as u32) < (upper_at(i + 1) as u32),
{
    assert forall|i: int| 50 <= i < 100 implies ((#[trigger] upper_at(i)) as u32) < (upper_at(i + 1) as u32) by {
        assert(50 <= i < 100);
    }
}

proof fn lemma_sorted_part02()
    ensures
        forall|i: int| 100 <= i < 150 ==> ((#[trigger] upper_at(i)) as u32) < (upper_at(i + 1) as u32),
{
    assert forall|i: int| 100 <= i < 150 implies ((#[trigger] upper_at(i)) as u32) < (upper_at(i + 1) as u32) by {
        assert(100 <= i < 150);
    }
}

proof fn lemma_sorted_part03()
    ensures
        forall|i: int| 150 <= i < 200 ==> ((#[trigger] upper_at(i)) as u32) < (upper_at(i + 1) as u32),
{
    assert forall|i: int| 150 <= i < 200 implies ((#[trigger] upper_at(i)) as u32) < (upper_at(i + 1) as u32) by {
        assert(150 <= i < 200);
    }
}

proof fn lemma_sorted_part04()
    ensures
        forall|i: int| 200 <= i < 250 ==> ((#[trigger] upper_at(i)) as u32) < (upper_at(i + 1) as u32),
{
    assert forall|i: int| 200 <= i < 250 implies ((#[trigger] upper_at(i)) as u32) < (upper_at(i + 1) as u32) by {
        assert(200 <= i < 250);
    }
}

proof fn lemma_sorted_part05()
    ensures
        forall|i: int| 250 <= i < 300 ==> ((#[trigger] upper_at(i)) as u32) < (upper_at(i + 1) as u32),
{
    assert forall|i: int| 250 <= i < 300 implies ((#[trigger] upper_at(i)) as u32) < (upper_at(i + 1) as u32) by {
        assert(250 <= i < 300);
    }
}

proof fn lemma_sorted_part06()
    ensures
        forall|i: int| 300 <= i < 350 ==> ((#[trigger] upper_at(i)) as u32) < (upper_at(i + 1) as u32),
{
    assert forall|i: int| 300 <= i < 350 implies ((#[trigger] upper_at(i)) as u32) < (upper_at(i + 1) as u32) by {
        assert(300 <= i < 350);
    }
}

proof fn lemma_sorted_part07()
    ensures
        forall|i: int| 350 <= i < 400 ==> ((#[trigger] upper_at(i)) as u32) < (upper_at(i + 1) as u32),
{
    assert forall|i: int| 350 <= i < 400 implies ((#[trigger] upper_at(i)) as u32) < (upper_at(i + 1) as u32) by {
        assert(350 <= i < 400);
    }
}

proof fn lemma_sorted_part08()
    ensures
        forall|i: int| 400 <= i < 450 ==> ((#[trigger] upper_at(i)) as u32) < (upper_at(i + 1) as u32),
{
    assert forall|i: int| 400 <= i < 450 implies ((#[trigger] upper_at(i)) as u32) < (upper_at(i + 1) as u32) by {
        assert(400 <= i < 450);
    }
}

proof fn lemma_sorted_part09()
    ensures
        forall|i: int| 450 <= i < 500 ==> ((#[trigger] upper_at(i)) as u32) < (upper_at(i + 1) as u32),
{
    assert forall|i: int| 450 <= i < 500 implies ((#[trigger] upper_at(i)) as u32) < (upper_at(i + 1) as u32) by {
        assert(450 <= i < 500);
    }
}

proof fn lemma_sorted_part10()
    ensures
        forall|i: int| 500 <= i < 550 ==> ((#[trigger] upper_at(i)) as u32) < (upper_at(i + 1) as u32),
{
    assert forall|i: int| 500 <= i < 550 implies ((#[trigger] upper_at(i)) as u32) < (upper_at(i + 1) as u32) by {
        assert(500 <= i < 550);
    }
}

proof fn lemma_sorted_part11()
    ensures
        forall|i: int| 550 <= i < 600 ==> ((#[trigger] upper_at(i)) as u32) < (upper_at(i + 1) as u32),
{
    assert forall|i: int| 550 <= i < 600 implies ((#[trigger] upper_at(i)) as u32) < (upper_at(i + 1) as u32) by {
        assert(550 <= i < 600);
    }
}

proof fn lemma_sorted_part12()
    ensures
        forall|i: int| 600 <= i < 650 ==> ((#[trigger] upper_at(i)) as u32) < (upper_at(i + 1) as u32),
{
    assert forall|i: int| 600 <= i < 650 implies ((#[trigger] upper_at(i)) as u32) < (upper_at(i + 1) as u32) by {
        assert(600 <= i < 650);
    }
}

proof fn lemma_sorted_part13()
    ensures
        forall|i: int| 650 <= i < 700 ==> ((#[trigger] upper_at(i)) as u32) < (upper_at(i + 1) as u32),
{
    assert forall|i: int| 650 <= i < 700 implies ((#[trigger] upper_at(i)) as u32) < (upper_at(i + 1) as u32) by {
        assert(650 <= i < 700);
    }
}

proof fn lemma_sorted_part14()
    ensures
        forall|i: int| 700 <= i < 750 ==> ((#[trigger] upper_at(i)) as u32) < (upper_at(i + 1) as u32),
{
    assert forall|i: int| 700 <= i < 750 implies ((#[trigger] upper_at(i)) as u32) < (upper_at(i + 1) as u32) by {
        assert(700 <= i < 750);
    }
}

proof fn lemma_sorted_part15()
    ensures
        forall|i: int| 750 <= i < 800 ==> ((#[trigger] upper_at(i)) as u32) < (upper_at(i + 1) as u32),
{
    assert forall|i: int| 750 <= i < 800 implies ((#[trigger] upper_at(i)) as u32) < (upper_at(i + 1) as u32) by {
        assert(750 <= i < 800);
    }
}

proof fn lemma_sorted_part16()
    ensures
        forall|i: int| 800 <= i < 850 ==> ((#[trigger] upper_at(i)) as u32) < (upper_at(i + 1) as u32),
{
    assert forall|i: int| 800 <= i < 850 implies ((#[trigger] upper_at(i)) as u32) < (upper_at(i + 1) as u32) by {
        assert(800 <= i < 850);
    }
}

proof fn lemma_sorted_part17()
    ensures
        forall|i: int| 850 <= i < 866 ==> ((#[trigger] upper_at(i)) as u32) < (upper_at(i + 1) as u32),
{
    assert forall|i: int| 850 <= i < 866 implies ((#[trigger] upper_at(i)) as u32) < (upper_at(i + 1) as u32) by {
        assert(850 <= i < 866);
    }
}

/// Adjacent entries of the table are in strictly ascending upper order.
pub proof fn lemma_table_sorted()
    ensures
        forall|i: int| 0 <= i < 866 ==> ((#[trigger] upper_at(i)) as u32) < (upper_at(i + 1) as u32),
{
    lemma_sorted_part00();
    lemma_sorted_part01();
    lemma_sorted_part02();
    lemma_sorted_part03();
    lemma_sorted_part04();
    lemma_sorted_part05();
    lemma_sorted_part06();
    lemma_sorted_part07();
    lemma_sorted_part08();
    lemma_sorted_part09();
    lemma_sorted_part10();
    lemma_sorted_part11();
    lemma_sorted_part12();
    lemma_sorted_part13();
    lemma_sorted_part14();
    lemma_sorted_part15();
    lemma_sorted_part16();
    lemma_sorted_part17();
}

proof fn lemma_gaps_part00()
    ensures
        forall|i: int| 0 <= i < 50 ==> #[trigger] lower_separated(i),
{
    assert forall|i: int| 0 <= i < 50 implies #[trigger] lower_separated(i) by {
        assert(0 <= i < 50);
    }
}

proof fn lemma_gaps_part01()
    ensures
        forall|i: int| 50 <= i < 100 ==> #[trigger] lower_separated(i),
{
    assert forall|i: int| 50 <= i < 100 implies #[trigger] lower_separated(i) by {
        assert(50 <= i < 100);
    }
}

proof fn lemma_gaps_part02()
    ensures
        forall|i: int| 100 <= i < 150 ==> #[trigger] lower_separated(i),
{
    assert forall|i: int| 100 <= i < 150 implies #[trigger] lower_separated(i) by {
        assert(100 <= i < 150);
    }
}

proof fn lemma_gaps_part03()
    ensures
        forall|i: int| 150 <= i < 200 ==> #[trigger] lower_separated(i),
{
    assert forall|i: int| 150 <= i < 200 implies #[trigger] lower_separated(i) by {
        assert(150 <= i < 200);
    }
}

proof fn lemma_gaps_part04()
    ensures
        forall|i: int| 200 <= i < 250 ==> #[trigger] lower_separated(i),
{
    assert forall|i: int| 200 <= i < 250 implies #[trigger] lower_separated(i) by {
        assert(200 <= i < 250);
    }
}

proof fn lemma_gaps_part05()
    ensures
        forall|i: int| 250 <= i < 300 ==> #[trigger] lower_separated(i),
{
    assert forall|i: int| 250 <= i < 300 implies #[trigger] lower_separated(i) by {
        assert(250 <= i < 300);
    }
}

proof fn lemma_gaps_part06()
    ensures
        forall|i: int| 300 <= i < 350 ==> #[trigger] lower_separated(i),
{
    assert forall|i: int| 300 <= i < 350 implies #[trigger] lower_separated(i) by {
        assert(300 <= i < 350);
    }
}

proof fn lemma_gaps_part07()
    ensures
        forall|i: int| 350 <= i < 400 ==> #[trigger] lower_separated(i),
{
    assert forall|i: int| 350 <= i < 400 implies #[trigger] lower_separated(i) by {
        assert(350 <= i < 400);
    }
}

proof fn lemma_gaps_part08()
    ensures
        forall|i: int| 400 <= i < 450 ==> #[trigger] lower_separated(i),
{
    assert forall|i: int| 400 <= i < 450 implies #[trigger] lower_separated(i) by {
        assert(400 <= i < 450);
    }
}

proof fn lemma_gaps_part09()
    ensures
        forall|i: int| 450 <= i < 500 ==> #[trigger] lower_separated(i),
{
    assert forall|i: int| 450 <= i < 500 implies #[trigger] lower_separated(i) by {
        assert(450 <= i < 500);
    }
}

proof fn lemma_gaps_part10()
    ensures
        forall|i: int| 500 <= i < 550 ==> #[trigger] lower_separated(i),
{
    assert forall|i: int| 500 <= i < 550 implies #[trigger] lower_separated(i) by {
        assert(500 <= i < 550);
    }
}

proof fn lemma_gaps_part11()
    ensures
        forall|i: int| 550 <= i < 600 ==> #[trigger] lower_separated(i),
{
    assert forall|i: int| 550 <= i < 600 implies #[trigger] lower_separated(i) by {
        assert(550 <= i < 600);
    }
}

proof fn lemma_gaps_part12()
    ensures
        forall|i: int| 600 <= i < 650 ==> #[trigger] lower_separated(i),
{
    assert forall|i: int| 600 <= i < 650 implies #[trigger] lower_separated(i) by {
        assert(600 <= i < 650);
    }
}

proof fn lemma_gaps_part13()
    ensures
        forall|i: int| 650 <= i < 700 ==> #[trigger] lower_separated(i),
{
    assert forall|i: int| 650 <= i < 700 implies #[trigger] lower_separated(i) by {
        assert(650 <= i < 700);
    }
}

proof fn lemma_gaps_part14()
    ensures
        forall|i: int| 700 <= i < 750 ==> #[trigger] lower_separated(i),
{
    assert forall|i: int| 700 <= i < 750 implies #[trigger] lower_separated(i) by {
        assert(700 <= i < 750);
    }
}

proof fn lemma_gaps_part15()
    ensures
        forall|i: int| 750 <= i < 800 ==> #[trigger] lower_separated(i),
{
    assert forall|i: int| 750 <= i < 800 implies #[trigger] lower_separated(i) by {
        assert(750 <= i < 800);
    }
}

proof fn lemma_gaps_part16()
    ensures
        forall|i: int| 800 <= i < 850 ==> #[trigger] lower_separated(i),
{
    assert forall|i: int| 800 <= i < 850 implies #[trigger] lower_separated(i) by {
        assert(800 <= i < 850);
    }
}

proof fn lemma_gaps_part17()
    ensures
        forall|i: int| 850 <= i < 867 ==> #[trigger] lower_separated(i),
{
    assert forall|i: int| 850 <= i < 867 implies #[trigger] lower_separated(i) by {
        assert(850 <= i < 867);
    }
}

/// Every lower of the table is separated from the upper column by its gap.
pub proof fn lemma_table_gaps()
    ensures
        forall|i: int| 0 <= i < 867 ==> #[trigger] lower_separated(i),
{
    lemma_gaps_part00();
    lemma_gaps_part01();
    lemma_gaps_part02();
    lemma_gaps_part03();
    lemma_gaps_part04();
    lemma_gaps_part05();
    lemma_gaps_part06();
    lemma_gaps_part07();
    lemma_gaps_part08();
    lemma_gaps_part09();
    lemma_gaps_part10();
    lemma_gaps_part11();
    lemma_gaps_part12();
    lemma_gaps_part13();
    lemma_gaps_part14();
    lemma_gaps_part15();
    lemma_gaps_part16();
    lemma_gaps_part17();
}

pub proof fn lemma_table_len()
    ensures
        table().len() == 867,
{
}

pub proof fn lemma_table_first()
    ensures
        upper_at(0) == '\u{c0}',
{
}

} // verus!
