use vstd::prelude::*;
use vstd::string::*;
use crate::effects::PostProcessingEffects;

verus! {

/// Start of the post-processing fragment shader, up to the effect's code.
pub const FRAGMENT_HEAD: &'static str = r#"
            #version 330 core

            in vec2 v_tex_coords;

            out vec4 out_color;

            uniform sampler2D screen_texture;

            "#;

/// End of the post-processing fragment shader, after the effect's code.
pub const FRAGMENT_TAIL: &'static str = r#"
        "#;

/// Effect code that shows the frame as it is.
pub const PLAIN_MAIN: &'static str = r#"
                void main() {
                    out_color = texture(screen_texture, v_tex_coords);
                }
            "#;

/// Effect code that inverts every colour.
pub const INVERSED_MAIN: &'static str = r#"
                void main() {
                    out_color = vec4(vec3(1.0 - texture(screen_texture, v_tex_coords)), 1.0);
                }
            "#;

/// Effect code that shows the frame's luminance.
pub const GRAY_SCALE_MAIN: &'static str = r#"
                void main() {
                    out_color = texture(screen_texture, v_tex_coords);
                    float average = 0.2126 * out_color.r + 0.7152 * out_color.g + 0.0722 * out_color.b;
                    out_color = vec4(average, average, average, 1.0);
                }
            "#;

/// Start of the effect code that convolves the frame with a kernel, up to
/// the kernel's declaration.
pub const KERNEL_MAIN_HEAD: &'static str = r#"
    const float offset = 1.0 / 300.0;

    void main() {
        vec2 offsets[9] = vec2[](
            vec2(-offset, offset), // top-left
            vec2( 0.0f, offset), // top-center
            vec2( offset, offset), // top-right
            vec2(-offset, 0.0f), // center-left
            vec2( 0.0f, 0.0f), // center-center
            vec2( offset, 0.0f), // center-right
            vec2(-offset, -offset), // bottom-left
            vec2( 0.0f, -offset), // bottom-center
            vec2( offset, -offset) // bottom-right
        );

        "#;

/// End of the convolution code, after the kernel's declaration.
pub const KERNEL_MAIN_TAIL: &'static str = r#"

        vec3 sampleTex[9];
        for(int i = 0; i < 9; i++) {
            sampleTex[i] = vec3(texture(screen_texture, v_tex_coords.st +
            offsets[i]));
        }
        vec3 col = vec3(0.0);
        for(int i = 0; i < 9; i++)
            col += sampleTex[i] * kernel[i];
        out_color = vec4(col, 1.0);
    }
"#;

/// Start of the kernel's declaration, before its first weight.
pub const KERNEL_DECL_HEAD: &'static str = r#"
        float kernel[9] = float[](
            "#;

/// Separator between two weights of one row of the kernel.
pub const KERNEL_WEIGHT_SEP: &'static str = r#", "#;

/// Separator between two rows of the kernel.
pub const KERNEL_ROW_SEP: &'static str = r#",
            "#;

/// End of the kernel's declaration, after its last weight.
pub const KERNEL_DECL_TAIL: &'static str = r#"
        );
    "#;

/// A 3 by 3 convolution kernel: weight `i`, row after row, is
/// `weights[i]` ten-thousandths.
#[derive(Clone, Copy, Debug, PartialEq, Eq)]
pub struct Kernel {
    pub weights: [i32; 9],
}

/// The denominator of a kernel weight: weights are kept in ten-thousandths.
pub const WEIGHT_SCALE: u64 = 10000;

/// Number of decimal places that a weight can have.
pub const WEIGHT_DECIMALS: u64 = 4;

/// The kernel that sharpens the frame until it looks deep-fried.
pub open spec fn deep_fried_kernel() -> Kernel {
    Kernel { weights: [-10000i32, -10000i32, -10000i32, -10000i32, 90000, -10000i32, -10000i32, -10000i32, -10000i32] }
}

/// The kernel that blurs the frame.
pub open spec fn blur_kernel() -> Kernel {
    Kernel { weights: [625, 1250, 625, 1250, 2500, 1250, 625, 1250, 625] }
}

/// The kernel that keeps only the frame's edges.
pub open spec fn edge_kernel() -> Kernel {
    Kernel { weights: [10000, 10000, 10000, 10000, -80000i32, 10000, 10000, 10000, 10000] }
}

/// The kernel an effect convolves the frame with, if it uses one.
pub open spec fn kernel_of(e: PostProcessingEffects) -> Option<Kernel> {
    match e {
        PostProcessingEffects::DeepFried => Some(deep_fried_kernel()),
        PostProcessingEffects::Blur => Some(blur_kernel()),
        PostProcessingEffects::Edged => Some(edge_kernel()),
        _ => None,
    }
}

/// The character of decimal digit `d`.
pub open spec fn digit_char(d: int) -> char {
    if d == 0 {
        '0'
    } else if d == 1 {
        '1'
    } else if d == 2 {
        '2'
    } else if d == 3 {
        '3'
    } else if d == 4 {
        '4'
    } else if d == 5 {
        '5'
    } else if d == 6 {
        '6'
    } else if d == 7 {
        '7'
    } else if d == 8 {
        '8'
    } else {
        '9'
    }
}

/// The decimal digits of `n`, most significant first, without leading zeros.
pub open spec fn decimal(n: nat) -> Seq<char>
    decreases n,
{
    if n < 10 {
        seq![digit_char(n as int)]
    } else {
        decimal(n / 10).push(digit_char((n % 10) as int))
    }
}

/// The last `k` decimal digits of `f`, with leading zeros.
pub open spec fn padded_decimal(f: nat, k: nat) -> Seq<char>
    decreases k,
{
    if k == 0 {
        Seq::empty()
    } else {
        padded_decimal(f / 10, (k - 1) as nat).push(digit_char((f % 10) as int))
    }
}

/// `s` without the zeros at its end.
pub open spec fn trim_trailing_zeros(s: Seq<char>) -> Seq<char>
    decreases s.len(),
{
    if s.len() > 0 && s.last() == '0' {
        trim_trailing_zeros(s.drop_last())
    } else {
        s
    }
}

/// The shortest decimal text of `n` ten-thousandths: the whole part, and
/// a point and the fraction's digits without trailing zeros where the
/// fraction is not zero.
pub open spec fn fixed_text(n: nat) -> Seq<char> {
    if n % (WEIGHT_SCALE as nat) == 0 {
        decimal(n / (WEIGHT_SCALE as nat))
    } else {
        decimal(n / (WEIGHT_SCALE as nat)) + seq!['.']
            + trim_trailing_zeros(padded_decimal(n % (WEIGHT_SCALE as nat), WEIGHT_DECIMALS as nat))
    }
}

/// The text of a weight of `w` ten-thousandths, with a minus sign when it
/// is negative.
pub open spec fn weight_text(w: int) -> Seq<char> {
    if w < 0 {
        seq!['-'] + fixed_text((-w) as nat)
    } else {
        fixed_text(w as nat)
    }
}

/// The text that follows weight `i` of the kernel's declaration.
pub open spec fn weight_sep(i: int) -> Seq<char> {
    if i == 8 {
        KERNEL_DECL_TAIL@
    } else if i % 3 == 2 {
        KERNEL_ROW_SEP@
    } else {
        KERNEL_WEIGHT_SEP@
    }
}

/// The text of the first `n` weights of a kernel, each with what follows it.
pub open spec fn weights_text(k: Kernel, n: int) -> Seq<char>
    decreases n,
{
    if n <= 0 {
        Seq::empty()
    } else {
        weights_text(k, n - 1) + weight_text(k.weights[n - 1] as int) + weight_sep(n - 1)
    }
}

/// The effect code that convolves the frame with `k`.
pub open spec fn kernel_main(k: Kernel) -> Seq<char> {
    KERNEL_MAIN_HEAD@ + KERNEL_DECL_HEAD@ + weights_text(k, 9) + KERNEL_MAIN_TAIL@
}

/// The effect code of `e`.
pub open spec fn effect_main(e: PostProcessingEffects) -> Seq<char> {
    match e {
        PostProcessingEffects::NoPostProcessing => PLAIN_MAIN@,
        PostProcessingEffects::Inversed => INVERSED_MAIN@,
        PostProcessingEffects::GrayScale => GRAY_SCALE_MAIN@,
        PostProcessingEffects::DeepFried => kernel_main(deep_fried_kernel()),
        PostProcessingEffects::Blur => kernel_main(blur_kernel()),
        PostProcessingEffects::Edged => kernel_main(edge_kernel()),
    }
}

/// The whole fragment shader of the post-processing pass for `e`.
pub open spec fn fragment_source(e: PostProcessingEffects) -> Seq<char> {
    FRAGMENT_HEAD@ + effect_main(e) + FRAGMENT_TAIL@
}

/// The kernel that effect `e` convolves the frame with, if any.
pub fn effect_kernel(e: PostProcessingEffects) -> (r: Option<Kernel>)
    ensures
        r == kernel_of(e),
{
    match e {
        PostProcessingEffects::DeepFried => Some(Kernel {
            weights: [-10000, -10000, -10000, -10000, 90000, -10000, -10000, -10000, -10000],
        }),
        PostProcessingEffects::Blur => Some(Kernel {
            weights: [625, 1250, 625, 1250, 2500, 1250, 625, 1250, 625],
        }),
        PostProcessingEffects::Edged => Some(Kernel {
            weights: [10000, 10000, 10000, 10000, -80000, 10000, 10000, 10000, 10000],
        }),
        _ => None,
    }
}

fn digit_text(d: u64) -> (r: &'static str)
    requires
        d < 10,
    ensures
        r@ == seq![digit_char(d as int)],
{
    proof {
        reveal_strlit("0");
        reveal_strlit("1");
        reveal_strlit("2");
        reveal_strlit("3");
        reveal_strlit("4");
        reveal_strlit("5");
        reveal_strlit("6");
        reveal_strlit("7");
        reveal_strlit("8");
        reveal_strlit("9");
    }
    if d == 0 {
        "0"
    } else if d == 1 {
        "1"
    } else if d == 2 {
        "2"
    } else if d == 3 {
        "3"
    } else if d == 4 {
        "4"
    } else if d == 5 {
        "5"
    } else if d == 6 {
        "6"
    } else if d == 7 {
        "7"
    } else if d == 8 {
        "8"
    } else {
        "9"
    }
}

/// The decimal text of `n`.
pub fn decimal_text(n: u64) -> (r: String)
    ensures
        r@ == decimal(n as nat),
    decreases n,
{
    if n < 10 {
        String::from_str(digit_text(n))
    } else {
        let mut s = decimal_text(n / 10);
        s.append(digit_text(n % 10));
        s
    }
}

/// The last `k` decimal digits of `f`, with leading zeros.
fn padded_text(f: u64, k: u64) -> (r: String)
    ensures
        r@ == padded_decimal(f as nat, k as nat),
    decreases k,
{
    if k == 0 {
        String::new()
    } else {
        let mut s = padded_text(f / 10, k - 1);
        s.append(digit_text(f % 10));
        s
    }
}

proof fn lemma_trim_padded_zero(f: nat, k: nat)
    requires
        k > 0,
        f % 10 == 0,
    ensures
        trim_trailing_zeros(padded_decimal(f, k)) == trim_trailing_zeros(padded_decimal(f / 10, (k - 1) as nat)),
{
    let p = padded_decimal(f / 10, (k - 1) as nat);
    assert(padded_decimal(f, k) == p.push('0'));
    assert(p.push('0').drop_last() =~= p);
}

/// The digits of a fraction of `f` ten-thousandths, without trailing zeros.
fn fraction_text(f: u64) -> (r: String)
    requires
        0 < f < WEIGHT_SCALE,
    ensures
        r@ == trim_trailing_zeros(padded_decimal(f as nat, WEIGHT_DECIMALS as nat)),
{
    let mut g: u64 = f;
    let mut k: u64 = WEIGHT_DECIMALS;
    while k > 0 && g % 10 == 0
        invariant
            k <= WEIGHT_DECIMALS,
            trim_trailing_zeros(padded_decimal(f as nat, WEIGHT_DECIMALS as nat))
                == trim_trailing_zeros(padded_decimal(g as nat, k as nat)),
        decreases k,
    {
        proof {
            lemma_trim_padded_zero(g as nat, k as nat);
        }
        g = g / 10;
        k = k - 1;
    }
    proof {
        let p = padded_decimal(g as nat, k as nat);
        if k > 0 {
            assert(p.last() == digit_char((g % 10) as int));
            assert(p.last() != '0');
        }
    }
    padded_text(g, k)
}

/// The shortest decimal text of `n` ten-thousandths.
pub fn fixed_decimal_text(n: u64) -> (r: String)
    ensures
        r@ == fixed_text(n as nat),
{
    proof {
        reveal_strlit(".");
    }
    let mut s = decimal_text(n / WEIGHT_SCALE);
    let fraction = n % WEIGHT_SCALE;
    if fraction != 0 {
        s.append(".");
        s.append(fraction_text(fraction).as_str());
    }
    s
}

fn append_weight(s: &mut String, w: i32)
    ensures
        final(s)@ == old(s)@ + weight_text(w as int),
{
    proof {
        reveal_strlit("-");
    }
    if w < 0 {
        let magnitude: u64 = (0 - (w as i64)) as u64;
        s.append("-");
        s.append(fixed_decimal_text(magnitude).as_str());
    } else {
        s.append(fixed_decimal_text(w as u64).as_str());
    }
}

/// The effect code that convolves the frame with `k`.
pub fn kernel_main_code(k: &Kernel) -> (r: String)
    ensures
        r@ == kernel_main(*k),
{
    let mut s = String::from_str(KERNEL_MAIN_HEAD);
    s.append(KERNEL_DECL_HEAD);
    let ghost start = s@;
    let mut i: usize = 0;
    while i < 9
        invariant
            i <= 9,
            start == KERNEL_MAIN_HEAD@ + KERNEL_DECL_HEAD@,
            s@ == start + weights_text(*k, i as int),
        decreases 9 - i,
    {
        append_weight(&mut s, k.weights[i]);
        if i == 8 {
            s.append(KERNEL_DECL_TAIL);
        } else if i % 3 == 2 {
            s.append(KERNEL_ROW_SEP);
        } else {
            s.append(KERNEL_WEIGHT_SEP);
        }
        i = i + 1;
        proof {
            assert(s@ =~= start + weights_text(*k, i as int));
        }
    }
    s.append(KERNEL_MAIN_TAIL);
    proof {
        assert(s@ =~= kernel_main(*k));
    }
    s
}

/// The effect code of `e`.
pub fn effect_main_code(e: PostProcessingEffects) -> (r: String)
    ensures
        r@ == effect_main(e),
{
    match effect_kernel(e) {
        Some(k) => kernel_main_code(&k),
        None => match e {
            PostProcessingEffects::Inversed => String::from_str(INVERSED_MAIN),
            PostProcessingEffects::GrayScale => String::from_str(GRAY_SCALE_MAIN),
            _ => String::from_str(PLAIN_MAIN),
        },
    }
}

/// The fragment shader of the pass that draws the off-screen frame to the
/// window with effect `e`.
pub fn fragment_shader_source(e: PostProcessingEffects) -> (r: String)
    ensures
        r@ == fragment_source(e),
{
    let mut s = String::from_str(FRAGMENT_HEAD);
    s.append(effect_main_code(e).as_str());
    s.append(FRAGMENT_TAIL);
    proof {
        assert(s@ =~= fragment_source(e));
    }
    s
}

/// The name of field `field` of the point light at place `i` of the
/// shader's light array.
pub fn point_light_uniform(i: usize, field: &str) -> (r: String)
    ensures
        r@ == seq!['p', 'o', 'i', 'n', 't', '_', 'l', 'i', 'g', 'h', 't', 's', '[']
            + decimal(i as nat) + seq![']', '.'] + field@,
{
    proof {
        reveal_strlit("point_lights[");
        reveal_strlit("].");
    }
    let mut s = String::from_str("point_lights[");
    s.append(decimal_text(i as u64).as_str());
    s.append("].");
    s.append(field);
    proof {
        assert(s@ =~= seq!['p', 'o', 'i', 'n', 't', '_', 'l', 'i', 'g', 'h', 't', 's', '[']
            + decimal(i as nat) + seq![']', '.'] + field@);
    }
    s
}

} // verus!
