use vitaminc::{
    identity, IsPermutable, AlphaNumericPassword, AlphaPassword, Controlled, Depermute, Generatable, Password,
    Permute, PermutationKey, SafeRand,
};

fn gen_rand_key<const N: usize>() -> PermutationKey<N> {
    let mut rng = SafeRand::from_entropy();
    PermutationKey::random(&mut rng).expect("Failed to generate key")
}

fn gen_key<const N: usize>(seed: [u8; 32]) -> PermutationKey<N> {
    let mut rng = SafeRand::from_seed(seed);
    PermutationKey::random(&mut rng).expect("Failed to generate key")
}

fn check_permute<const N: usize>()
where
    [u8; N]: IsPermutable,
{
    let mut rng = SafeRand::from_entropy();
    let input: [u8; N] = Generatable::random(&mut rng).unwrap();
    let key: PermutationKey<N> = gen_rand_key();
    let output = key.permute(input);
    // Note that this may fail for some inputs
    assert_ne!(output, input);
}

fn check_depermute<const N: usize>()
where
    [u8; N]: IsPermutable,
{
    let mut rng = SafeRand::from_entropy();
    let input: [u8; N] = Generatable::random(&mut rng).unwrap();
    let key: PermutationKey<N> = gen_rand_key();
    let output = key.permute(input);
    let depermuted = key.depermute(output);
    assert_eq!(depermuted, input);
}

fn check_associativity<const N: usize>()
where
    [u8; N]: IsPermutable,
{
    let mut rng = SafeRand::from_entropy();
    let key_1: PermutationKey<N> = gen_key([0; 32]);
    let key_2: PermutationKey<N> = gen_key([1; 32]);
    let input: [u8; N] = Generatable::random(&mut rng).unwrap();

    let output_1 = key_2.permute(key_1.permute(input));
    let output_2 = key_2.permute(key_1).permute(input);

    assert_eq!(output_1, output_2);
}

#[test]
fn permute_case() {
    check_permute::<8>();
    check_permute::<16>();
    check_permute::<32>();
    check_permute::<64>();
}

#[test]
fn depermutation_case() {
    check_depermute::<8>();
    check_depermute::<16>();
    check_depermute::<32>();
    check_depermute::<64>();
}

#[test]
fn associativity_case() {
    check_associativity::<8>();
    check_associativity::<16>();
    check_associativity::<32>();
    check_associativity::<64>();
}

fn check_key_invert<const N: usize>()
where
    [u8; N]: IsPermutable,
{
    let key: PermutationKey<N> = gen_rand_key();
    let copy = key.clone_key();
    let inverted = copy.invert();

    assert_eq!(
        key.permute(inverted).into_inner().risky_unwrap(),
        identity::<N>(),
        "Failed to invert key of size {N}"
    );
}

fn check_key_complement<const N: usize>()
where
    [u8; N]: IsPermutable,
{
    let key: PermutationKey<N> = gen_rand_key();
    let target: PermutationKey<N> = gen_rand_key();
    let complement = key.complement(&target);

    let mut rng = SafeRand::from_entropy();
    let input: [u8; N] = Generatable::random(&mut rng).unwrap();

    // c(t)(x) = p(x)
    assert_eq!(
        complement.permute(target).permute(input),
        key.permute(input),
        "Failed to complement key of size {N}"
    );
}

#[test]
fn key_inversion_case() {
    check_key_invert::<8>();
    check_key_invert::<16>();
    check_key_invert::<32>();
    check_key_invert::<64>();
}

#[test]
fn key_complement_case() {
    check_key_complement::<8>();
    check_key_complement::<16>();
    check_key_complement::<32>();
    check_key_complement::<64>();
}

#[test]
fn test_identity_key_maps_each_entry_to_itself() {
    let key: PermutationKey<8> = PermutationKey::new_unchecked(identity::<8>());
    let input: [u8; 8] = [10, 20, 30, 40, 50, 60, 70, 80];
    assert_eq!(key.permute(input), input);
}

#[test]
fn test_random_key_is_a_permutation() {
    let key: PermutationKey<16> = gen_rand_key();
    let mut seen = [false; 16];
    let arr = key.into_inner().risky_unwrap();
    for v in arr {
        assert!((v as usize) < 16);
        assert!(!seen[v as usize]);
        seen[v as usize] = true;
    }
}

#[test]
fn test_next_bounded_u32() {
    let mut rng = SafeRand::from_entropy();
    let value = rng.next_bounded_u32(4);
    assert!(value < 4);
}

#[test]
fn test_next_bounded_u32_non_power_of_two() {
    let mut rng = SafeRand::from_entropy();
    let value = rng.next_bounded_u32(5);
    assert!(value <= 5);
}

#[test]
fn test_fill_bytes_length() {
    let mut rng = SafeRand::from_entropy();
    let buf = rng.fill_bytes(17);
    assert_eq!(buf.len(), 17);
}

#[test]
fn test_seeded_generator_is_deterministic() {
    let mut a = SafeRand::from_seed([7; 32]);
    let mut b = SafeRand::from_seed([7; 32]);
    assert_eq!(a.next_u32(), b.next_u32());
    assert_eq!(a.next_u64(), b.next_u64());
}

#[test]
fn test_generate_password() {
    let mut rng = SafeRand::from_entropy();
    let value: Password<16> = Password::generate(&mut rng).unwrap();
    assert_eq!(value.into_unprotected_string().chars().count(), 16);
}

#[test]
fn test_generate_alphanumeric_password() {
    let mut rng = SafeRand::from_entropy();
    let value: AlphaNumericPassword<16> = AlphaNumericPassword::generate(&mut rng).unwrap();
    let s = value.into_unprotected_string();
    assert_eq!(s.chars().count(), 16);
    assert!(s.chars().all(|c| c.is_ascii_alphanumeric()));
}

#[test]
fn test_generate_alpha_password() {
    let mut rng = SafeRand::from_entropy();
    let value: AlphaPassword<16> = AlphaPassword::generate(&mut rng).unwrap();
    let s = value.into_unprotected_string();
    assert_eq!(s.chars().count(), 16);
    assert!(s.chars().all(|c| c.is_ascii_alphabetic()));
}

#[test]
fn test_password_new_round_trips() {
    let chars: [char; 5] = ['a', 'b', 'c', 'd', 'e'];
    let p = Password::new(chars);
    assert_eq!(p.into_unprotected_string(), "abcde");
}
