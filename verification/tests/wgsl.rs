use bevy_hanabi::ToWgslString;
use shooter_core::cone::{MyPositionCone3dModifier, Value};
use shooter_core::program::{emission_program, wgsl_literal};

#[test]
fn literal_keeps_the_point_and_drops_trailing_zeros() {
    assert_eq!(wgsl_literal(0), "0.");
    assert_eq!(wgsl_literal(1), "0.001");
    assert_eq!(wgsl_literal(10), "0.01");
    assert_eq!(wgsl_literal(100), "0.1");
    assert_eq!(wgsl_literal(120), "0.12");
    assert_eq!(wgsl_literal(123), "0.123");
    assert_eq!(wgsl_literal(1_000), "1.");
    assert_eq!(wgsl_literal(1_001), "1.001");
    assert_eq!(wgsl_literal(50_500), "50.5");
    assert_eq!(wgsl_literal(100_000), "100.");
    assert_eq!(wgsl_literal(907_060), "907.06");
    assert_eq!(wgsl_literal(u32::MAX), "4294967.295");
}

#[test]
fn literal_is_written_as_the_effect_library_writes_it() {
    // Numbers of thousandths that a 32-bit real holds exactly.
    let cases: [(u32, f32); 8] = [
        (0, 0.0),
        (125, 0.125),
        (250, 0.25),
        (500, 0.5),
        (3_000, 3.0),
        (50_000, 50.0),
        (100_000, 100.0),
        (1_500_750, 1500.75),
    ];
    for (thousandths, real) in cases {
        assert_eq!(wgsl_literal(thousandths), real.to_wgsl_string());
    }
}

#[test]
fn speed_is_written_as_the_effect_library_writes_it() {
    assert_eq!(Value::Single(7_500).to_wgsl_string(), "7.5");
    assert_eq!(Value::Single(7_500).to_wgsl_string(), bevy_hanabi::Value::Single(7.5f32).to_wgsl_string());
    assert_eq!(Value::Uniform(100_000, 500_000).to_wgsl_string(), "rand() * (500. - 100.) + 100.");
    assert_eq!(
        Value::Uniform(100_000, 500_000).to_wgsl_string(),
        bevy_hanabi::Value::Uniform((100.0f32, 500.0f32)).to_wgsl_string()
    );
}

#[test]
fn program_of_the_debris_cone() {
    let code = MyPositionCone3dModifier::debris().apply("ret.pos", "ret.vel");
    let expected = "
    // Height of the cone section, and how far down it the particle starts.
    let h0 = 100.;
    let alpha_h = pow(rand(), 1.0 / 3.0);
    let h = h0 * alpha_h;
    // Radius of the cone at its top, at its base and at the particle's height.
    let rt = 0.;
    let rb = 50.;
    let r0 = rt + (rb - rt) * alpha_h;
    // Distance of the particle from the axis, and its azimuth.
    let alpha_r = sqrt(rand());
    let r = r0 * alpha_r;
    let theta = rand() * tau;
    let cost = cos(theta);
    let sint = sin(theta);
    let p = vec3<f32>(r * cost, h, r * sint);
    ret.pos = (transform * vec4<f32>(p, 1.0)).xyz;
    // Away from the axis, towards the side of the cone at the same height.
    let pb = vec3<f32>(r0 * cost, h, r0 * sint);
    let dir = transform * vec4<f32>(normalize(pb - p), 0.0);
    let speed = rand() * (500. - 100.) + 100.;
    ret.vel = dir.xyz * speed;
";
    assert_eq!(code, expected);
}

#[test]
fn program_names_the_places_it_is_given() {
    let cone = MyPositionCone3dModifier {
        height: 1_250,
        base_radius: 20,
        top_radius: 3_000,
        speed: Value::Single(0),
    };
    let code = cone.apply("(*particle).position", "(*particle).velocity");
    assert!(code.contains("let h0 = 1.25;\n"));
    assert!(code.contains("let rt = 3.;\n"));
    assert!(code.contains("let rb = 0.02;\n"));
    assert!(code.contains("let speed = 0.;\n"));
    assert!(code.contains("    (*particle).position = (transform * vec4<f32>(p, 1.0)).xyz;\n"));
    assert!(code.ends_with("    (*particle).velocity = dir.xyz * speed;\n"));
    assert_eq!(code.matches("rand()").count(), 3);
}

#[test]
fn program_sets_the_six_texts_in_their_places() {
    let code = emission_program("H", "T", "B", "S", "P", "V");
    assert!(code.contains("let h0 = H;\n"));
    assert!(code.contains("let rt = T;\n"));
    assert!(code.contains("let rb = B;\n"));
    assert!(code.contains("let speed = S;\n"));
    assert!(code.contains("    P = (transform * vec4<f32>(p, 1.0)).xyz;\n"));
    assert!(code.ends_with("    V = dir.xyz * speed;\n"));
}

#[test]
fn program_of_the_debris_cone_from_the_texts_of_the_effect_library() {
    let cone = MyPositionCone3dModifier::debris();
    let code = emission_program(
        &100.0f32.to_wgsl_string(),
        &0.0f32.to_wgsl_string(),
        &50.0f32.to_wgsl_string(),
        &bevy_hanabi::Value::Uniform((100.0f32, 500.0f32)).to_wgsl_string(),
        "ret.pos",
        "ret.vel",
    );
    assert_eq!(code, cone.apply("ret.pos", "ret.vel"));
}
