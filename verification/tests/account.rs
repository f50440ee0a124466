use rand::rngs::StdRng;
use rand::thread_rng;
use rand::RngCore;
use rand::SeedableRng;
use regex::Regex;
use vanity_search::account::Account;
use vanity_search::account::IdentityFactory;
use vanity_search::account::InvalidSeedError;
use vanity_search::seed::seed_is_valid;

const EMPTY_PK: [u8; 32] = [0; 32];

fn addr_rgx() -> Regex {
    Regex::new("^0x[0-9a-fA-F]+$").unwrap()
}

fn rand_gen() -> StdRng {
    StdRng::from_rng(thread_rng()).unwrap()
}

fn check_account_properties(account: &Account) {
    let priv_key = account.priv_key_as_hex();
    let pub_key = account.pub_key_as_hex();
    let address = account.address_as_hex();

    assert!(
        addr_rgx().is_match(&priv_key),
        "private key should be hexadecimal."
    );
    assert_eq!(
        priv_key.len(),
        66,
        "private key should be 66 characters long but was {} characters long.",
        priv_key.len()
    );

    assert!(
        addr_rgx().is_match(&pub_key),
        "public key key should be hexadecimal."
    );
    assert_eq!(
        pub_key.len(),
        130,
        "public key should be 130 characters long but was {} characters long.",
        pub_key.len()
    );

    assert!(
        addr_rgx().is_match(&address),
        "address key should be hexadecimal."
    );
    assert_eq!(
        address.len(),
        42,
        "address should be 22 characters long but was {} characters long.",
        address.len()
    );
}

#[test]
fn test_new_account() {
    let mut pk = EMPTY_PK;
    rand_gen().fill_bytes(&mut pk);

    let account = Account::new(&pk);

    check_account_properties(&account);
}

#[test]
fn test_new_account_multiple() {
    let mut pk = EMPTY_PK;
    let mut rand = rand_gen();

    rand.fill_bytes(&mut pk);
    let account = Account::new(&pk);
    check_account_properties(&account);

    rand.fill_bytes(&mut pk);
    let account = Account::new(&pk);
    check_account_properties(&account);
}

#[test]
fn test_rand_new_account() {
    let account = Account::rand_new().unwrap();

    check_account_properties(&account);
}

#[test]
fn test_rand_new_account_multiple() {
    let account = Account::rand_new().unwrap();
    check_account_properties(&account);

    let account = Account::rand_new().unwrap();
    check_account_properties(&account);
}

fn key_one() -> [u8; 32] {
    let mut seed = [0u8; 32];
    seed[31] = 1;
    seed
}

const GENERATOR_X: &str = "79be667ef9dcbbac55a06295ce870b07029bfcdb2dce28d959f2815b16f81798";
const GENERATOR_Y: &str = "483ada7726a3c4655da4fbfc0e1108a8fd17b448a68554199c47d08ffb10d4b8";

#[test]
fn key_one_gives_the_known_account() {
    let account = Account::new(&key_one());
    assert_eq!(
        account.priv_key_as_hex(),
        "0x0000000000000000000000000000000000000000000000000000000000000001"
    );
    assert_eq!(
        account.pub_key_as_hex(),
        format!("0x{}{}", GENERATOR_X, GENERATOR_Y)
    );
    assert_eq!(
        account.address_as_hex(),
        "0x7e5f4552091a69125d5dfcb7b8c2659029395bdf"
    );
    assert_eq!(account.priv_key().len(), 32);
    assert_eq!(account.pub_key().len(), 64);
    assert_eq!(account.address().len(), 20);
    assert_eq!(account.priv_key().as_slice(), &key_one()[..]);
}

#[test]
fn same_key_gives_same_account() {
    let mut pk = EMPTY_PK;
    rand_gen().fill_bytes(&mut pk);
    pk[0] = 0x12;
    let factory = IdentityFactory::new();
    let first = factory.derive(&pk).unwrap();
    let second = IdentityFactory::new().derive(&pk).unwrap();
    let third = Account::new(&pk);
    assert_eq!(first.priv_key(), second.priv_key());
    assert_eq!(first.pub_key(), second.pub_key());
    assert_eq!(first.address(), second.address());
    assert_eq!(first.pub_key(), third.pub_key());
    assert_eq!(first.address(), third.address());
    let copy = first.clone();
    assert_eq!(copy.priv_key(), first.priv_key());
    assert_eq!(copy.pub_key(), first.pub_key());
    assert_eq!(copy.address(), first.address());
}

#[test]
fn different_keys_give_different_accounts() {
    let one = Account::new(&key_one());
    let mut seed = key_one();
    seed[31] = 2;
    let two = Account::new(&seed);
    assert_ne!(one.pub_key(), two.pub_key());
    assert_ne!(one.address(), two.address());
    assert_eq!(
        two.address_as_hex(),
        "0x2b5ad5c4795c026514f8317c7a215e218dccd6cf"
    );
}

#[test]
fn zero_seed_is_refused() {
    let factory = IdentityFactory::new();
    assert_eq!(factory.derive(&[0u8; 32]).err(), Some(InvalidSeedError {}));
}

#[test]
fn seed_at_or_above_the_order_is_refused() {
    let factory = IdentityFactory::new();
    assert!(factory.derive(&[0xffu8; 32]).is_err());
    let order: [u8; 32] = [
        0xff, 0xff, 0xff, 0xff, 0xff, 0xff, 0xff, 0xff, 0xff, 0xff, 0xff, 0xff, 0xff, 0xff, 0xff,
        0xfe, 0xba, 0xae, 0xdc, 0xe6, 0xaf, 0x48, 0xa0, 0x3b, 0xbf, 0xd2, 0x5e, 0x8c, 0xd0, 0x36,
        0x41, 0x41,
    ];
    assert!(factory.derive(&order).is_err());
    let mut top = order;
    top[31] = 0x40;
    let account = factory.derive(&top).unwrap();
    assert_eq!(account.priv_key().as_slice(), &top[..]);
}

#[test]
fn seed_of_wrong_length_is_refused() {
    let factory = IdentityFactory::new();
    assert!(factory.derive(&[]).is_err());
    assert!(factory.derive(&[1u8; 31]).is_err());
    assert!(factory.derive(&[1u8; 33]).is_err());
    assert!(factory.derive(&[1u8; 32]).is_ok());
}

#[test]
fn account_texts_are_exact() {
    let account = Account::new(&key_one());
    let priv_key = account.priv_key().clone();
    let pub_key = account.pub_key().clone();
    let address = account.address().clone();
    assert_eq!(
        account.to_text(),
        format!(
            "private key: {:?}\n public key: {:?}\n address: {:?}\n",
            priv_key, pub_key, address
        )
    );
    assert_eq!(
        account.to_hex_text(),
        format!(
            "private key: {}\n public key: {}\n address: {}\n",
            account.priv_key_as_hex(),
            account.pub_key_as_hex(),
            account.address_as_hex()
        )
    );
    assert_eq!(
        account.to_debug_text(),
        format!(
            "private key: {} len: {}\n public key: {} len: {}\n address: {} len: {}\n",
            account.priv_key_as_hex(),
            32,
            account.pub_key_as_hex(),
            64,
            account.address_as_hex(),
            20
        )
    );
    assert!(account
        .to_hex_text()
        .ends_with("\n address: 0x7e5f4552091a69125d5dfcb7b8c2659029395bdf\n"));
    assert!(account.to_text().starts_with(
        "private key: [0, 0, 0, 0, 0, 0, 0, 0, 0, 0, 0, 0, 0, 0, 0, 0, 0, 0, 0, 0, 0, 0, 0, 0, 0, 0, 0, 0, 0, 0, 0, 1]\n public key: [121, 190, 102, "
    ));
}

#[test]
fn validity_check_agrees_with_derivation() {
    let factory = IdentityFactory::new();
    let order: [u8; 32] = [
        0xff, 0xff, 0xff, 0xff, 0xff, 0xff, 0xff, 0xff, 0xff, 0xff, 0xff, 0xff, 0xff, 0xff, 0xff,
        0xfe, 0xba, 0xae, 0xdc, 0xe6, 0xaf, 0x48, 0xa0, 0x3b, 0xbf, 0xd2, 0x5e, 0x8c, 0xd0, 0x36,
        0x41, 0x41,
    ];
    let mut seeds: Vec<Vec<u8>> = vec![
        vec![],
        vec![1u8; 31],
        vec![1u8; 33],
        vec![0u8; 32],
        vec![0xffu8; 32],
        order.to_vec(),
        key_one().to_vec(),
    ];
    for i in 0..32 {
        let mut lower = order;
        let mut higher = order;
        if lower[i] > 0 {
            lower[i] -= 1;
            seeds.push(lower.to_vec());
        }
        if higher[i] < 0xff {
            higher[i] += 1;
            seeds.push(higher.to_vec());
        }
        let mut single = [0u8; 32];
        single[i] = 0x80;
        seeds.push(single.to_vec());
    }
    let mut rand = rand_gen();
    for _ in 0..200 {
        let mut pk = EMPTY_PK;
        rand.fill_bytes(&mut pk);
        seeds.push(pk.to_vec());
    }
    for seed in seeds {
        assert_eq!(
            seed_is_valid(&seed),
            factory.derive(&seed).is_ok(),
            "seed {:?}",
            seed
        );
    }
}

#[test]
fn validity_of_edge_seeds() {
    assert!(!seed_is_valid(&[0u8; 32]));
    assert!(seed_is_valid(&key_one()));
    assert!(!seed_is_valid(&[0xffu8; 32]));
    assert!(!seed_is_valid(&[1u8; 31]));
    assert!(!seed_is_valid(&[]));
}
