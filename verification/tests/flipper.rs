use erc20::flipper::FetchRandom;
use erc20::flipper::Flipper;
use erc20::flipper::RandomReadErr;
use erc20::flipper::RandomUpdated;

#[test]
fn default_works() {
    let flipper = Flipper::default();
    assert_eq!(flipper.get_flip(), false);
}

#[test]
fn it_works() {
    let mut flipper = Flipper::new(false, [0u8; 32]);
    assert_eq!(flipper.get_flip(), false);
    flipper.flip();
    assert_eq!(flipper.get_flip(), true);
}

struct FixedSeed {
    seed: [u8; 32],
    fail: bool,
}

impl FetchRandom for FixedSeed {
    fn fetch_random(&mut self) -> Result<[u8; 32], RandomReadErr> {
        if self.fail {
            Err(RandomReadErr::FailGetRandomSource)
        } else {
            Ok(self.seed)
        }
    }
}

#[test]
fn update_rand_stores_seed_and_records_event() {
    let mut flipper = Flipper::new(true, [0u8; 32]);
    let mut source = FixedSeed { seed: [7u8; 32], fail: false };
    assert_eq!(flipper.update_rand(&mut source), Ok(()));
    assert_eq!(flipper.get_rand(), [7u8; 32]);
    assert_eq!(flipper.get_flip(), true);
    assert_eq!(flipper.events.len(), 1);
    assert_eq!(flipper.events[0], RandomUpdated { new: [7u8; 32] });
}

#[test]
fn update_rand_failure_changes_nothing() {
    let mut flipper = Flipper::new(true, [3u8; 32]);
    let mut source = FixedSeed { seed: [7u8; 32], fail: true };
    assert_eq!(
        flipper.update_rand(&mut source),
        Err(RandomReadErr::FailGetRandomSource)
    );
    assert_eq!(flipper.get_rand(), [3u8; 32]);
    assert_eq!(flipper.events.len(), 0);
}

#[test]
fn status_codes_decode() {
    assert_eq!(RandomReadErr::from_status_code(0), Ok(()));
    assert_eq!(
        RandomReadErr::from_status_code(1),
        Err(RandomReadErr::FailGetRandomSource)
    );
}
