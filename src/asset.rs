use vstd::prelude::*;

verus! {

/// The sprites the simulation refers to.
#[derive(Clone, Copy, Debug, PartialEq, Eq, Structural)]
pub enum Asset {
    Player,
    Drone1,
    Projectile1,
    Explosion1,
}

impl Asset {
    /// The asset a key names; an unknown key falls back to `projectile1`.
    pub open spec fn from_key_spec(key: Seq<char>) -> Asset {
        if key == "player"@ {
            Asset::Player
        } else if key == "drone1"@ {
            Asset::Drone1
        } else if key == "explosion1"@ {
            Asset::Explosion1
        } else {
            Asset::Projectile1
        }
    }

    pub fn from_key(key: &String) -> (r: Asset)
        ensures
            r == Asset::from_key_spec(key@),
    {
        if *key == "player".to_owned() {
            Asset::Player
        } else if *key == "drone1".to_owned() {
            Asset::Drone1
        } else if *key == "explosion1".to_owned() {
            Asset::Explosion1
        } else {
            Asset::Projectile1
        }
    }

    pub open spec fn key_spec(self) -> Seq<char> {
        match self {
            Asset::Player => "player"@,
            Asset::Drone1 => "drone1"@,
            Asset::Projectile1 => "projectile1"@,
            Asset::Explosion1 => "explosion1"@,
        }
    }

    /// The key under which the asset is stored; it names the asset back.
    pub fn key(&self) -> (r: &'static str)
        ensures
            r@ == self.key_spec(),
            Asset::from_key_spec(r@) == *self,
    {
        proof {
            reveal_strlit("player");
            reveal_strlit("drone1");
            reveal_strlit("projectile1");
            reveal_strlit("explosion1");
        }
        let r = match self {
            Asset::Player => "player",
            Asset::Drone1 => "drone1",
            Asset::Projectile1 => "projectile1",
            Asset::Explosion1 => "explosion1",
        };
        assert(Asset::from_key_spec(r@) == *self) by {
            assert("drone1"@[0] != "player"@[0]);
            assert("projectile1"@.len() != "player"@.len());
            assert("projectile1"@[0] != "drone1"@[0]);
            assert("projectile1"@[0] != "explosion1"@[0]);
            assert("explosion1"@[0] != "player"@[0]);
            assert("explosion1"@[0] != "drone1"@[0]);
        }
        r
    }
}

} // verus!
