use complex_numbers::Complex;

type Pair = (f64, f64);

fn show(p: Pair) -> String {
    let c = Complex { r: p.0.to_bits(), i: p.1.to_bits() };
    c.to_text(&format!("{}", p.0), &format!("{}", p.1))
}

fn decode(c: Complex) -> Pair {
    (f64::from_bits(c.r), f64::from_bits(c.i))
}

fn encode(p: Pair) -> Complex {
    Complex { r: p.0.to_bits(), i: p.1.to_bits() }
}

fn times(a: Pair, b: Pair) -> Pair {
    (a.0 * b.0 - a.1 * b.1, a.0 * b.1 + a.1 * b.0)
}

fn inverse(a: Pair) -> Pair {
    let d = a.0 * a.0 + a.1 * a.1;
    (a.0 / d, -a.1 / d)
}

#[test]
fn fixed_sequence_prints_its_nine_lines() {
    let unit = decode(Complex::imaginary_unit());
    let x = (1.0 + unit.0, unit.1);
    let y = (unit.0 + 1.0, unit.1);
    let difference = (x.0 - y.0, x.1 - y.1);
    let opposite = decode(-encode(y));
    let z = times(x, unit);
    let tripled = (3.0 * x.0, 3.0 * x.1);
    let reciprocal = inverse(x);
    let one = times(x, reciprocal);
    let quotient = times(x, inverse(tripled));
    let lines = vec![
        show(x),
        show(y),
        show(difference),
        show(opposite),
        show(z),
        show(tripled),
        show(reciprocal),
        show(one),
        show(quotient),
    ];
    let expected = vec![
        "(1 + 1I)",
        "(1 + 1I)",
        "0",
        "(-1 + -1I)",
        "(-1 + 1I)",
        "(3 + 3I)",
        "(0.5 + -0.5I)",
        "1",
        "0.3333333333333333",
    ];
    assert_eq!(lines, expected);
}
