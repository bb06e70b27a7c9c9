//! Uniform values: the eight shapes a shader uniform can take.
//!
//! Single-precision numbers are carried as their IEEE-754 bit patterns, so a
//! value is stored, compared and handed on bit for bit.

use vstd::arithmetic::power2::{lemma2_to64, lemma_pow2_strictly_increases, pow2};
use vstd::bits::{lemma_u32_shl_is_mul, lemma_u32_shr_is_div};
use vstd::prelude::*;

verus! {

/// An IEEE-754 binary32 number, held as its 32-bit pattern.
#[derive(Clone, Copy, Debug, PartialEq, Eq, Hash, Structural)]
pub struct FloatBits(pub u32);

impl FloatBits {
    /// Whether the sign bit is set.
    pub open spec fn negative(self) -> bool {
        self.0 >= 0x8000_0000
    }

    /// The biased exponent, eight bits.
    pub open spec fn exponent(self) -> int {
        (self.0 / 0x80_0000) as int % 0x100
    }

    /// The fraction, twenty-three bits.
    pub open spec fn fraction(self) -> int {
        self.0 as int % 0x80_0000
    }

    /// Whether the pattern is not a number.
    pub open spec fn is_nan(self) -> bool {
        self.exponent() == 0xff && self.fraction() != 0
    }

    /// The significand as a whole number: the fraction, with the hidden bit
    /// in front for all but the subnormal patterns.
    pub open spec fn significand(self) -> int {
        if self.exponent() == 0 {
            self.fraction()
        } else {
            self.fraction() + 0x80_0000
        }
    }

    /// The power of two that the significand's last bit stands for. The
    /// magnitude is `significand * 2^scale`; an infinity counts as `2^128`.
    pub open spec fn scale(self) -> int {
        if self.exponent() == 0 {
            -149
        } else {
            self.exponent() - 150
        }
    }

    /// The magnitude without what follows the point.
    pub open spec fn whole_magnitude(self) -> int {
        if self.scale() >= 0 {
            self.significand() * pow2(self.scale() as nat)
        } else {
            self.significand() / (pow2((-self.scale()) as nat) as int)
        }
    }

    /// The number cut toward zero and held to the range of `i32`; zero for
    /// what is not a number.
    pub open spec fn truncated(self) -> int {
        if self.is_nan() {
            0
        } else {
            let whole = if self.negative() {
                -self.whole_magnitude()
            } else {
                self.whole_magnitude()
            };
            if whole < i32::MIN {
                i32::MIN as int
            } else if whole > i32::MAX {
                i32::MAX as int
            } else {
                whole
            }
        }
    }

    /// The pattern itself.
    pub fn to_bits(self) -> (bits: u32)
        ensures
            bits == self.0,
    {
        self.0
    }

    /// Converts to an integer the way a cast does: what follows the point is
    /// dropped, what lies beyond the range of `i32` becomes the nearest end
    /// of it, and what is not a number becomes zero.
    pub fn to_i32(self) -> (whole: i32)
        ensures
            whole == self.truncated(),
    {
        let bits = self.0;
        let exponent: u32 = (bits >> 23) & 0xff;
        let fraction: u32 = bits & 0x7f_ffff;
        let negative = bits >= 0x8000_0000;
        assert(exponent == (bits / 0x80_0000) % 0x100 && fraction == bits % 0x80_0000)
            by (bit_vector)
            requires
                exponent == (bits >> 23) & 0xff,
                fraction == bits & 0x7f_ffff,
        ;
        assert(self.exponent() == exponent && self.fraction() == fraction);
        if exponent == 0xff && fraction != 0 {
            return 0;
        }
        proof {
            lemma2_to64();
        }
        if exponent < 127 {
            proof {
                let down = (-self.scale()) as nat;
                if down > 24 {
                    lemma_pow2_strictly_increases(24, down);
                }
                assert(self.significand() < pow2(down));
                assert(self.whole_magnitude() == 0) by (nonlinear_arith)
                    requires
                        self.whole_magnitude() == self.significand() / (pow2(down) as int),
                        0 <= self.significand() < pow2(down),
                ;
            }
            return 0;
        }
        if exponent >= 158 {
            proof {
                let up = self.scale() as nat;
                if up > 8 {
                    lemma_pow2_strictly_increases(8, up);
                }
                assert(self.whole_magnitude() >= 0x8000_0000) by (nonlinear_arith)
                    requires
                        self.whole_magnitude() == self.significand() * pow2(up),
                        self.significand() >= 0x80_0000,
                        pow2(up) >= 0x100,
                ;
            }
            return if negative {
                i32::MIN
            } else {
                i32::MAX
            };
        }
        let significand: u32 = fraction | 0x80_0000;
        assert(significand == fraction + 0x80_0000) by (bit_vector)
            requires
                significand == fraction | 0x80_0000,
                fraction < 0x80_0000,
        ;
        let magnitude: u32 = if exponent >= 150 {
            let up: u32 = exponent - 150;
            proof {
                if up < 7 {
                    lemma_pow2_strictly_increases(up as nat, 7);
                }
                assert(significand * pow2(up as nat) < 0x8000_0000) by (nonlinear_arith)
                    requires
                        significand < 0x100_0000,
                        pow2(up as nat) <= 0x80,
                ;
                lemma_u32_shl_is_mul(significand, up);
            }
            significand << up
        } else {
            let down: u32 = 150 - exponent;
            proof {
                lemma_u32_shr_is_div(significand, down);
            }
            significand >> down
        };
        assert(magnitude == self.whole_magnitude());
        assert(magnitude < 0x8000_0000) by {
            if exponent < 150 {
                let down: u32 = (150 - exponent) as u32;
                assert(significand >> down <= significand) by (bit_vector);
            }
        }
        if negative {
            -(magnitude as i32)
        } else {
            magnitude as i32
        }
    }
}

/// A value for a shader uniform: one to four floats, or one to four signed
/// 32-bit integers.
#[derive(Clone, Copy, Debug, PartialEq, Eq)]
pub enum UniformValue {
    /// `float`
    Float(FloatBits),
    /// `vec2`
    Vec2([FloatBits; 2]),
    /// `vec3`
    Vec3([FloatBits; 3]),
    /// `vec4`
    Vec4([FloatBits; 4]),
    /// `int`
    Int(i32),
    /// `ivec2`
    IVec2([i32; 2]),
    /// `ivec3`
    IVec3([i32; 3]),
    /// `ivec4`
    IVec4([i32; 4]),
}

/// Short name for [`UniformValue`].
pub type Uniform = UniformValue;

/// The shape of a uniform value, without its components.
#[derive(Clone, Copy, Debug, PartialEq, Eq, Structural)]
pub enum UniformType {
    Float,
    Vec2,
    Vec3,
    Vec4,
    Int,
    IVec2,
    IVec3,
    IVec4,
}

impl UniformType {
    /// The number a shape goes by where it crosses a C interface.
    pub open spec fn code_of(self) -> i32 {
        match self {
            UniformType::Float => 0,
            UniformType::Vec2 => 1,
            UniformType::Vec3 => 2,
            UniformType::Vec4 => 3,
            UniformType::Int => 4,
            UniformType::IVec2 => 5,
            UniformType::IVec3 => 6,
            UniformType::IVec4 => 7,
        }
    }

    /// The number a shape goes by where it crosses a C interface.
    pub fn code(self) -> (code: i32)
        ensures
            code == self.code_of(),
            0 <= code <= 7,
    {
        match self {
            UniformType::Float => 0,
            UniformType::Vec2 => 1,
            UniformType::Vec3 => 2,
            UniformType::Vec4 => 3,
            UniformType::Int => 4,
            UniformType::IVec2 => 5,
            UniformType::IVec3 => 6,
            UniformType::IVec4 => 7,
        }
    }

    /// The shape that goes by `code`, if there is one.
    pub fn from_code(code: i32) -> (shape: Option<UniformType>)
        ensures
            match shape {
                Some(shape) => shape.code_of() == code,
                None => code < 0 || code > 7,
            },
    {
        match code {
            0 => Some(UniformType::Float),
            1 => Some(UniformType::Vec2),
            2 => Some(UniformType::Vec3),
            3 => Some(UniformType::Vec4),
            4 => Some(UniformType::Int),
            5 => Some(UniformType::IVec2),
            6 => Some(UniformType::IVec3),
            7 => Some(UniformType::IVec4),
            _ => None,
        }
    }
}

/// A uniform value as it crosses a C interface: a shape and four floats, of
/// which the shape says how many count. Integer shapes take their components
/// from the floats by cutting them toward zero.
#[derive(Clone, Copy, Debug, PartialEq, Eq)]
pub struct UniformValueFFI {
    pub uniform_type: UniformType,
    pub data: [FloatBits; 4],
}

impl UniformValueFFI {
    /// The component at `index` as an integer.
    pub open spec fn whole(self, index: int) -> i32 {
        self.data[index].truncated() as i32
    }

    /// The value this stands for.
    pub open spec fn value(self) -> UniformValue {
        match self.uniform_type {
            UniformType::Float => UniformValue::Float(self.data[0]),
            UniformType::Vec2 => UniformValue::Vec2([self.data[0], self.data[1]]),
            UniformType::Vec3 => UniformValue::Vec3([self.data[0], self.data[1], self.data[2]]),
            UniformType::Vec4 => UniformValue::Vec4(
                [self.data[0], self.data[1], self.data[2], self.data[3]],
            ),
            UniformType::Int => UniformValue::Int(self.whole(0)),
            UniformType::IVec2 => UniformValue::IVec2([self.whole(0), self.whole(1)]),
            UniformType::IVec3 => UniformValue::IVec3(
                [self.whole(0), self.whole(1), self.whole(2)],
            ),
            UniformType::IVec4 => UniformValue::IVec4(
                [self.whole(0), self.whole(1), self.whole(2), self.whole(3)],
            ),
        }
    }

    /// The value this stands for.
    pub fn to_uniform_value(&self) -> (value: UniformValue)
        ensures
            value == self.value(),
            value.shape() == self.uniform_type,
    {
        let d = &self.data;
        match self.uniform_type {
            UniformType::Float => UniformValue::Float(d[0]),
            UniformType::Vec2 => UniformValue::Vec2([d[0], d[1]]),
            UniformType::Vec3 => UniformValue::Vec3([d[0], d[1], d[2]]),
            UniformType::Vec4 => UniformValue::Vec4([d[0], d[1], d[2], d[3]]),
            UniformType::Int => UniformValue::Int(d[0].to_i32()),
            UniformType::IVec2 => UniformValue::IVec2([d[0].to_i32(), d[1].to_i32()]),
            UniformType::IVec3 => UniformValue::IVec3(
                [d[0].to_i32(), d[1].to_i32(), d[2].to_i32()],
            ),
            UniformType::IVec4 => UniformValue::IVec4(
                [d[0].to_i32(), d[1].to_i32(), d[2].to_i32(), d[3].to_i32()],
            ),
        }
    }
}

impl UniformValue {
    /// The shape of this value.
    pub open spec fn shape(self) -> UniformType {
        match self {
            UniformValue::Float(_) => UniformType::Float,
            UniformValue::Vec2(_) => UniformType::Vec2,
            UniformValue::Vec3(_) => UniformType::Vec3,
            UniformValue::Vec4(_) => UniformType::Vec4,
            UniformValue::Int(_) => UniformType::Int,
            UniformValue::IVec2(_) => UniformType::IVec2,
            UniformValue::IVec3(_) => UniformType::IVec3,
            UniformValue::IVec4(_) => UniformType::IVec4,
        }
    }

    /// The shape of this value.
    pub fn uniform_type(&self) -> (shape: UniformType)
        ensures
            shape == self.shape(),
    {
        match self {
            UniformValue::Float(_) => UniformType::Float,
            UniformValue::Vec2(_) => UniformType::Vec2,
            UniformValue::Vec3(_) => UniformType::Vec3,
            UniformValue::Vec4(_) => UniformType::Vec4,
            UniformValue::Int(_) => UniformType::Int,
            UniformValue::IVec2(_) => UniformType::IVec2,
            UniformValue::IVec3(_) => UniformType::IVec3,
            UniformValue::IVec4(_) => UniformType::IVec4,
        }
    }
}

} // verus!
