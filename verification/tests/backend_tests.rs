use std::marker::PhantomData;

use fibonacci_air::air::Air as ConstraintSystem;
use fibonacci_air::air::FibonacciAir;
use fibonacci_air::builder::Selector;
use fibonacci_air::generate::generate_fibonacci_trace;
use fibonacci_air::matrix::{canonical_values, to_row_major};
use fibonacci_air::mersenne31::M31;
use fibonacci_air::symbolic::Expr;
use fibonacci_air::trace::Trace;
use p3_air::{Air, AirBuilder, BaseAir};
use p3_challenger::{HashChallenger, SerializingChallenger32};
use p3_circle::CirclePcs;
use p3_commit::ExtensionMmcs;
use p3_field::extension::BinomialExtensionField;
use p3_field::{PrimeCharacteristicRing, PrimeField32};
use p3_fri::FriParameters;
use p3_keccak::Keccak256Hash;
use p3_matrix::Matrix;
use p3_merkle_tree::MerkleTreeMmcs;
use p3_mersenne_31::Mersenne31;
use p3_symmetric::{CompressionFunctionFromHasher, SerializingHasher};
use p3_uni_stark::{prove, verify, StarkConfig};

struct BackendAir(FibonacciAir);

impl<F> BaseAir<F> for BackendAir {
    fn width(&self) -> usize {
        ConstraintSystem::width(&self.0)
    }
}

fn lower<AB: AirBuilder>(e: &Expr, local: &[AB::Var], next: &[AB::Var]) -> AB::Expr {
    match e {
        Expr::Local(c) => local[*c].into(),
        Expr::Next(c) => next[*c].into(),
        Expr::Constant(k) => AB::Expr::from_u32(*k),
        Expr::Sum(a, b) => lower::<AB>(a, local, next) + lower::<AB>(b, local, next),
    }
}

impl<AB: AirBuilder> Air<AB> for BackendAir {
    fn eval(&self, builder: &mut AB) {
        let main = builder.main();
        let local = main.row_slice(0).unwrap();
        let next = main.row_slice(1).unwrap();

        for a in self.0.symbolic_constraints() {
            let lhs = lower::<AB>(&a.lhs, &local, &next);
            let rhs = lower::<AB>(&a.rhs, &local, &next);
            match a.selector {
                Selector::FirstRow => builder.when_first_row().assert_eq(lhs, rhs),
                Selector::Transition => builder.when_transition().assert_eq(lhs, rhs),
                Selector::LastRow => builder.when_last_row().assert_eq(lhs, rhs),
            }
        }
    }
}

fn prove_and_verify(num_steps: usize, final_value: u32) -> bool {
    type Val = Mersenne31;
    type Challenge = BinomialExtensionField<Val, 3>;
    type ByteHash = Keccak256Hash;
    type FieldHash = SerializingHasher<ByteHash>;
    type MyCompress = CompressionFunctionFromHasher<ByteHash, 2, 32>;
    type ValMmcs = MerkleTreeMmcs<Val, u8, FieldHash, MyCompress, 32>;
    type ChallengeMmcs = ExtensionMmcs<Val, Challenge, ValMmcs>;
    type Challenger = SerializingChallenger32<Val, HashChallenger<u8, ByteHash, 32>>;
    type Pcs = CirclePcs<Val, ValMmcs, ChallengeMmcs>;
    type MyConfig = StarkConfig<Pcs, Challenge, Challenger>;

    let byte_hash = ByteHash {};
    let field_hash = FieldHash::new(Keccak256Hash {});
    let compress = MyCompress::new(byte_hash);
    let val_mmcs = ValMmcs::new(field_hash, compress);
    let challenge_mmcs = ChallengeMmcs::new(val_mmcs.clone());
    let fri_params = FriParameters {
        log_blowup: 1,
        log_final_poly_len: 0,
        num_queries: 40,
        proof_of_work_bits: 8,
        mmcs: challenge_mmcs,
    };
    let pcs = Pcs { mmcs: val_mmcs, fri_params, _phantom: PhantomData };
    let challenger = Challenger::from_hasher(vec![], byte_hash);
    let config = MyConfig::new(pcs, challenger);

    let air = BackendAir(FibonacciAir { num_steps, final_value });
    let trace = to_row_major(&generate_fibonacci_trace::<M31>(num_steps).unwrap());
    let proof = prove(&config, &air, trace, &vec![]);
    verify(&config, &air, &proof, &vec![]).is_ok()
}

#[test]
fn row_major_matrix_holds_the_generated_cells() {
    let trace = generate_fibonacci_trace::<M31>(8).unwrap();
    let matrix = to_row_major(&trace);
    assert_eq!(matrix.width(), 2);
    assert_eq!(matrix.height(), 8);
    let expected: [u32; 16] = [0, 1, 1, 1, 1, 2, 2, 3, 3, 5, 5, 8, 8, 13, 13, 21];
    assert_eq!(matrix.values.len(), 16);
    for j in 0..16 {
        assert_eq!(matrix.values[j].as_canonical_u32(), expected[j]);
        assert_eq!(matrix.values[j], Mersenne31::from_u32(expected[j]));
    }
    let last = matrix.row_slice(7).unwrap();
    assert_eq!(last[1], Mersenne31::from_u32(21));
}

#[test]
fn row_major_matrix_keeps_the_width() {
    let mut cells = Vec::new();
    for v in [9u32, 8, 7, 6, 5, 4] {
        cells.push(<M31 as fibonacci_air::field::Field>::from_u32(v));
    }
    let trace = Trace::new(cells, 3);
    let matrix = to_row_major(&trace);
    assert_eq!(matrix.width(), 3);
    assert_eq!(matrix.height(), 2);
    assert_eq!(matrix.values[3], Mersenne31::from_u32(6));
}

#[test]
fn canonical_values_are_the_cells_in_order() {
    let trace = generate_fibonacci_trace::<M31>(4).unwrap();
    assert_eq!(canonical_values(&trace), vec![0, 1, 1, 1, 1, 2, 2, 3]);
}

#[test]
fn proof_of_eight_steps_verifies() {
    assert!(prove_and_verify(8, 21));
}

#[test]
fn proof_of_sixteen_steps_verifies() {
    assert!(prove_and_verify(16, 987));
}
