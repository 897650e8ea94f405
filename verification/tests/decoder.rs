use bad_apple::decoder::{
    accumulator_within_limit, add_embedding_0, add_embedding_1, add_time_features, add_x_features,
    add_y_features, decode, decoder_size, init_accumulator, logit_scale, model, Accumulator, Model,
    HIDDEN0_DIMS, HIDDEN1_DIMS,
};
use bad_apple::layers::{Embedding, Linear};
use bad_apple::layout::{
    embedding_indices, embeddings, point_dims, FeatureGroup, EMBEDDINGS, INPUT_DIMS, POINT_DIMS,
};

fn next_code(state: &mut u32) -> i8 {
    *state = state.wrapping_mul(1664525).wrapping_add(1013904223);
    (*state >> 24) as u8 as i8
}

fn sample_model(seed: u32) -> Box<Model<5, 3>> {
    let mut state = seed;
    let mut m: Box<Model<5, 3>> = Box::new(Model {
        weight_scale: 64,
        em0: Embedding { weight: [[0; 20]; 5] },
        em1: Embedding { weight: [[0; 44]; 3] },
        l0: Linear { weight: [[0; 128]; 120], bias: [0; 128] },
        l1: Linear { weight: [[0; 96]; 128], bias: [0; 96] },
        l2: Linear { weight: [[0; 1]; 96], bias: [0; 1] },
    });
    for i in 0..120 {
        for o in 0..128 {
            m.l0.weight[i][o] = next_code(&mut state);
        }
    }
    for o in 0..128 {
        m.l0.bias[o] = next_code(&mut state) as i32 * 300;
    }
    for i in 0..128 {
        for o in 0..96 {
            m.l1.weight[i][o] = next_code(&mut state);
        }
    }
    for o in 0..96 {
        m.l1.bias[o] = next_code(&mut state) as i32 * 300;
    }
    for i in 0..96 {
        m.l2.weight[i][0] = next_code(&mut state);
    }
    m.l2.bias[0] = -4321;
    m
}

fn sample_input(seed: u32) -> [i8; 120] {
    let mut state = seed;
    let mut input = [0i8; 120];
    for i in 0..120 {
        input[i] = next_code(&mut state).clamp(-127, 127);
    }
    input
}

fn group<const N: usize>(input: &[i8; 120], offset: usize) -> [i8; N] {
    let mut out = [0i8; N];
    out.copy_from_slice(&input[offset..offset + N]);
    out
}

fn add_t(m: &Model<5, 3>, input: &[i8; 120], acc: &mut Accumulator) {
    add_time_features(
        m,
        &group::<13>(input, 0),
        &group::<13>(input, 13),
        &group::<20>(input, 56),
        &group::<44>(input, 76),
        acc,
    );
}

fn add_y(m: &Model<5, 3>, input: &[i8; 120], acc: &mut Accumulator) {
    add_y_features(m, &group::<7>(input, 26), &group::<7>(input, 33), acc);
}

fn add_x(m: &Model<5, 3>, input: &[i8; 120], acc: &mut Accumulator) {
    add_x_features(m, &group::<8>(input, 40), &group::<8>(input, 48), acc);
}

#[test]
fn init_accumulator_is_the_first_bias() {
    let m = sample_model(1);
    let mut acc: Accumulator = [5; 128];
    init_accumulator(&m, &mut acc);
    assert_eq!(acc, m.l0.bias);
}

#[test]
fn incremental_accumulator_equals_one_pass() {
    for seed in 0..20u32 {
        let m = sample_model(seed);
        let input = sample_input(seed + 100);
        let mut acc: Accumulator = [0; 128];
        init_accumulator(&m, &mut acc);
        add_t(&m, &input, &mut acc);
        add_y(&m, &input, &mut acc);
        add_x(&m, &input, &mut acc);
        let mut whole: [i32; 128] = [0; 128];
        m.l0.forward(&input, &mut whole);
        assert_eq!(acc, whole);
        assert_eq!(decode(&m, &acc), model(&m, &input));
    }
}

#[test]
fn incremental_equals_one_pass_at_zero_features() {
    let m = sample_model(3);
    let input = [0i8; 120];
    let mut acc: Accumulator = [0; 128];
    init_accumulator(&m, &mut acc);
    add_t(&m, &input, &mut acc);
    add_y(&m, &input, &mut acc);
    add_x(&m, &input, &mut acc);
    assert_eq!(acc, m.l0.bias);
    assert_eq!(decode(&m, &acc), model(&m, &input));
}

#[test]
fn all_six_orders_give_the_same_accumulator() {
    let m = sample_model(7);
    let input = sample_input(8);
    let mut tyx: Accumulator = [0; 128];
    init_accumulator(&m, &mut tyx);
    add_t(&m, &input, &mut tyx);
    add_y(&m, &input, &mut tyx);
    add_x(&m, &input, &mut tyx);

    let mut txy: Accumulator = [0; 128];
    init_accumulator(&m, &mut txy);
    add_t(&m, &input, &mut txy);
    add_x(&m, &input, &mut txy);
    add_y(&m, &input, &mut txy);

    let mut ytx: Accumulator = [0; 128];
    init_accumulator(&m, &mut ytx);
    add_y(&m, &input, &mut ytx);
    add_t(&m, &input, &mut ytx);
    add_x(&m, &input, &mut ytx);

    let mut yxt: Accumulator = [0; 128];
    init_accumulator(&m, &mut yxt);
    add_y(&m, &input, &mut yxt);
    add_x(&m, &input, &mut yxt);
    add_t(&m, &input, &mut yxt);

    let mut xty: Accumulator = [0; 128];
    init_accumulator(&m, &mut xty);
    add_x(&m, &input, &mut xty);
    add_t(&m, &input, &mut xty);
    add_y(&m, &input, &mut xty);

    let mut xyt: Accumulator = [0; 128];
    init_accumulator(&m, &mut xyt);
    add_x(&m, &input, &mut xyt);
    add_y(&m, &input, &mut xyt);
    add_t(&m, &input, &mut xyt);

    assert_eq!(tyx, txy);
    assert_eq!(tyx, ytx);
    assert_eq!(tyx, yxt);
    assert_eq!(tyx, xty);
    assert_eq!(tyx, xyt);
    let expected = decode(&m, &tyx);
    assert_eq!(decode(&m, &txy), expected);
    assert_eq!(decode(&m, &ytx), expected);
    assert_eq!(decode(&m, &yxt), expected);
    assert_eq!(decode(&m, &xty), expected);
    assert_eq!(decode(&m, &xyt), expected);
}

#[test]
fn accumulator_stays_within_the_limit_at_extreme_features() {
    let mut m = sample_model(11);
    for i in 0..120 {
        for o in 0..128 {
            m.l0.weight[i][o] = -128;
        }
    }
    let room: i32 = (1 << 30) - 120 * 16384;
    for o in 0..128 {
        m.l0.bias[o] = if o % 2 == 0 { room } else { -room };
    }
    assert!(m.is_wf());
    let input = [-128i8; 120];
    let mut acc: Accumulator = [0; 128];
    init_accumulator(&m, &mut acc);
    assert!(accumulator_within_limit(&acc));
    add_x(&m, &input, &mut acc);
    assert!(accumulator_within_limit(&acc));
    add_t(&m, &input, &mut acc);
    assert!(accumulator_within_limit(&acc));
    add_y(&m, &input, &mut acc);
    assert!(accumulator_within_limit(&acc));
    assert_eq!(acc[0], 1 << 30);
    assert_eq!(acc[1], -room + 120 * 16384);
}

#[test]
fn accumulator_stays_within_the_limit_on_samples() {
    for seed in 0..50u32 {
        let m = sample_model(seed * 3 + 1);
        let input = sample_input(seed * 5 + 2);
        let mut acc: Accumulator = [0; 128];
        init_accumulator(&m, &mut acc);
        add_y(&m, &input, &mut acc);
        assert!(acc.iter().all(|v| v.abs() <= 1 << 30));
        add_x(&m, &input, &mut acc);
        assert!(acc.iter().all(|v| v.abs() <= 1 << 30));
        add_t(&m, &input, &mut acc);
        assert!(acc.iter().all(|v| v.abs() <= 1 << 30));
    }
}

#[test]
fn accumulator_within_limit_tells_the_bound() {
    let mut acc: Accumulator = [0; 128];
    assert!(accumulator_within_limit(&acc));
    acc[127] = 1 << 30;
    acc[0] = -(1 << 30);
    assert!(accumulator_within_limit(&acc));
    acc[127] = (1 << 30) + 1;
    assert!(!accumulator_within_limit(&acc));
    acc[127] = 0;
    acc[64] = -(1 << 30) - 1;
    assert!(!accumulator_within_limit(&acc));
}

#[test]
fn repeated_calls_give_identical_results() {
    let m = sample_model(21);
    let input = sample_input(22);
    let first = model(&m, &input);
    for _ in 0..5 {
        assert_eq!(model(&m, &input), first);
        let mut acc: Accumulator = [0; 128];
        init_accumulator(&m, &mut acc);
        add_t(&m, &input, &mut acc);
        add_y(&m, &input, &mut acc);
        add_x(&m, &input, &mut acc);
        assert_eq!(decode(&m, &acc), first);
    }
}

#[test]
fn decode_of_a_hand_computed_network() {
    let mut m = sample_model(0);
    m.weight_scale = 1;
    for o in 0..128 {
        m.l0.bias[o] = 5;
    }
    for i in 0..128 {
        for o in 0..96 {
            m.l1.weight[i][o] = 1;
        }
    }
    for o in 0..96 {
        m.l1.bias[o] = 0;
    }
    for i in 0..96 {
        m.l2.weight[i][0] = 2;
    }
    m.l2.bias[0] = 7;
    let mut acc: Accumulator = [0; 128];
    init_accumulator(&m, &mut acc);
    // hidden 0 is 5 everywhere; layer 1 gives 128 * 5 = 640, which the
    // activation holds at 127; layer 2 gives 96 * 127 * 2 + 7.
    assert_eq!(decode(&m, &acc), 24391);
}

#[test]
fn decode_with_a_weight_scale() {
    let mut m = sample_model(0);
    m.weight_scale = 10;
    for o in 0..128 {
        m.l0.bias[o] = if o < 2 { 25 } else { -25 };
    }
    for i in 0..128 {
        for o in 0..96 {
            m.l1.weight[i][o] = if o == 0 { 3 } else { -3 };
        }
    }
    for o in 0..96 {
        m.l1.bias[o] = 8;
    }
    for i in 0..96 {
        m.l2.weight[i][0] = if i == 0 { -9 } else { 100 };
    }
    m.l2.bias[0] = 11;
    let mut acc: Accumulator = [0; 128];
    init_accumulator(&m, &mut acc);
    // hidden 0 is 2, 2, 0, ...; layer 1 gives 8 + 3 * 4 = 20 at output 0 and
    // 8 - 12 = -4 elsewhere; hidden 1 is 2, 0, ...; layer 2 gives 11 - 18.
    assert_eq!(decode(&m, &acc), -7);
}

#[test]
fn embeddings_add_at_their_offsets() {
    let m = sample_model(31);
    let em0 = [3i8; 20];
    let em1 = [-2i8; 44];
    let mut acc: Accumulator = [0; 128];
    add_embedding_0(&m, &em0, &mut acc);
    for o in 0..128 {
        let mut expected = 0i32;
        for i in 0..20 {
            expected += 3 * m.l0.weight[56 + i][o] as i32;
        }
        assert_eq!(acc[o], expected);
    }
    let mut acc: Accumulator = [1000; 128];
    add_embedding_1(&m, &em1, &mut acc);
    for o in 0..128 {
        let mut expected = 1000i32;
        for i in 0..44 {
            expected += -2 * m.l0.weight[76 + i][o] as i32;
        }
        assert_eq!(acc[o], expected);
    }
}

#[test]
fn x_features_add_at_their_offsets() {
    let m = sample_model(41);
    let x_sin: [i8; 8] = [1, 0, 0, 0, 0, 0, 0, 0];
    let x_cos: [i8; 8] = [0, 0, 0, 0, 0, 0, 0, -1];
    let mut acc: Accumulator = [0; 128];
    add_x_features(&m, &x_sin, &x_cos, &mut acc);
    for o in 0..128 {
        assert_eq!(acc[o], m.l0.weight[40][o] as i32 - m.l0.weight[55][o] as i32);
    }
}

#[test]
fn y_features_add_at_their_offsets() {
    let m = sample_model(42);
    let y_sin: [i8; 7] = [0, 2, 0, 0, 0, 0, 0];
    let y_cos: [i8; 7] = [-3, 0, 0, 0, 0, 0, 0];
    let mut acc: Accumulator = [7; 128];
    add_y_features(&m, &y_sin, &y_cos, &mut acc);
    for o in 0..128 {
        assert_eq!(acc[o], 7 + 2 * m.l0.weight[27][o] as i32 - 3 * m.l0.weight[33][o] as i32);
    }
}

#[test]
fn time_features_add_at_their_offsets() {
    let m = sample_model(43);
    let mut t_sin = [0i8; 13];
    t_sin[12] = 1;
    let mut t_cos = [0i8; 13];
    t_cos[0] = 1;
    let mut em0 = [0i8; 20];
    em0[19] = 1;
    let mut em1 = [0i8; 44];
    em1[43] = 1;
    let mut acc: Accumulator = [0; 128];
    add_time_features(&m, &t_sin, &t_cos, &em0, &em1, &mut acc);
    for o in 0..128 {
        let expected = m.l0.weight[12][o] as i32
            + m.l0.weight[13][o] as i32
            + m.l0.weight[75][o] as i32
            + m.l0.weight[119][o] as i32;
        assert_eq!(acc[o], expected);
    }
}

#[test]
fn decoder_size_is_the_exact_byte_sum() {
    let m = sample_model(0);
    let expected = 5 * 20 + 3 * 44 + (120 * 128 + 128 * 4) + (128 * 96 + 96 * 4) + (96 + 4);
    assert_eq!(decoder_size(&m), expected);
    assert_eq!(decoder_size(&m), 28876);
    let sum = m.em0.byte_size()
        + m.em1.byte_size()
        + m.l0.byte_size()
        + m.l1.byte_size()
        + m.l2.byte_size();
    assert_eq!(decoder_size(&m), sum);
    let in_memory = std::mem::size_of_val(&m.em0)
        + std::mem::size_of_val(&m.em1)
        + std::mem::size_of_val(&m.l0)
        + std::mem::size_of_val(&m.l1)
        + std::mem::size_of_val(&m.l2);
    assert_eq!(decoder_size(&m), in_memory);
}

#[test]
fn model_validity_follows_the_weight_scale_and_the_biases() {
    let mut m = sample_model(5);
    assert!(m.is_wf());
    m.weight_scale = 0;
    assert!(!m.is_wf());
    m.weight_scale = -3;
    assert!(!m.is_wf());
    m.weight_scale = 1;
    assert!(m.is_wf());
    m.l1.bias[95] = i32::MAX;
    assert!(!m.is_wf());
    m.l1.bias[95] = 0;
    m.l2.bias[0] = i32::MIN;
    assert!(!m.is_wf());
    m.l2.bias[0] = 0;
    m.l0.bias[3] = (1 << 30) - 120 * 16384 + 1;
    assert!(!m.is_wf());
    m.l0.bias[3] = (1 << 30) - 120 * 16384;
    assert!(m.is_wf());
}

#[test]
fn embedding_indices_hold_to_the_last_row() {
    assert_eq!(embedding_indices(0, 820), (0, 1));
    assert_eq!(embedding_indices(409, 820), (409, 410));
    assert_eq!(embedding_indices(818, 820), (818, 819));
    assert_eq!(embedding_indices(819, 820), (819, 819));
    assert_eq!(embedding_indices(820, 820), (819, 819));
    assert_eq!(embedding_indices(usize::MAX, 820), (819, 819));
    assert_eq!(embedding_indices(0, 1), (0, 0));
    assert_eq!(embedding_indices(7, 1), (0, 0));
    assert_eq!(embedding_indices(0, 2), (0, 1));
    assert_eq!(embedding_indices(1, 2), (1, 1));
}

#[test]
fn topology_queries_give_the_layout_constants() {
    assert_eq!(point_dims(), 56);
    assert_eq!(embeddings(), 820);
    assert_eq!(POINT_DIMS, 56);
    assert_eq!(EMBEDDINGS, 820);
    assert_eq!(INPUT_DIMS, 120);
}

#[test]
fn feature_groups_are_laid_out_back_to_back() {
    let groups = [
        (FeatureGroup::TSin, 13),
        (FeatureGroup::TCos, 13),
        (FeatureGroup::YSin, 7),
        (FeatureGroup::YCos, 7),
        (FeatureGroup::XSin, 8),
        (FeatureGroup::XCos, 8),
        (FeatureGroup::Em0, 20),
        (FeatureGroup::Em1, 44),
    ];
    let mut offset = 0usize;
    for (g, dims) in groups {
        let l = g.layout();
        assert_eq!(l.offset, offset);
        assert_eq!(l.dims, dims);
        offset += dims;
        if g == FeatureGroup::XCos {
            assert_eq!(offset, POINT_DIMS);
        }
    }
    assert_eq!(offset, INPUT_DIMS);
}

#[test]
fn logit_scale_is_input_scale_times_weight_scale() {
    let mut m = sample_model(5);
    assert_eq!(logit_scale(&m), 127 * 64);
    m.weight_scale = 1;
    assert_eq!(logit_scale(&m), 127);
    m.weight_scale = 16909320;
    assert!(m.is_wf());
    assert_eq!(logit_scale(&m), 2147483640);
    m.weight_scale = 16909321;
    assert!(!m.is_wf());
}

#[test]
fn hidden_layers_have_their_widths() {
    assert_eq!(HIDDEN0_DIMS, 128);
    assert_eq!(HIDDEN1_DIMS, 96);
    let m = sample_model(0);
    assert_eq!(m.l0.bias.len(), HIDDEN0_DIMS);
    assert_eq!(m.l1.bias.len(), HIDDEN1_DIMS);
    assert_eq!(m.l2.bias.len(), 1);
}

#[test]
fn logit_stays_within_the_limit() {
    for seed in 0..20u32 {
        let m = sample_model(seed + 200);
        let input = sample_input(seed + 300);
        let logit = model(&m, &input);
        assert!(logit.abs() <= 1 << 30);
    }
}
