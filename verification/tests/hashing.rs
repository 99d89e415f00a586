use auth_pipeline::hashing::hash;
use auth_pipeline::hashing::verify_hash;
use auth_pipeline::hashing::Hashing;

#[derive(Clone, Copy)]
struct Reverse;

impl Hashing for Reverse {
    type Error = String;

    fn hash(&self, content: &str) -> Result<String, String> {
        if content.is_empty() {
            return Err(String::from("nothing to hash"));
        }
        Ok(content.chars().rev().collect())
    }

    fn verify(&self, content: &str, other: &str) -> Result<bool, String> {
        Ok(self.hash(content)? == other)
    }
}

#[test]
fn hash_forwards_to_the_algorithm() {
    assert_eq!(hash(Reverse, "abc"), Ok(String::from("cba")));
    assert_eq!(hash(Reverse, ""), Err(String::from("nothing to hash")));
}

#[test]
fn verify_hash_forwards_to_the_algorithm() {
    assert_eq!(verify_hash(Reverse, "abc", "cba"), Ok(true));
    assert_eq!(verify_hash(Reverse, "abc", "abc"), Ok(false));
    assert_eq!(verify_hash(Reverse, "", ""), Err(String::from("nothing to hash")));
}
