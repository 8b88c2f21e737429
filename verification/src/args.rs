//! The emulator process's arguments and the paths derived from them.
//!
//! The process takes an optional `--load-auto` flag and two positional
//! paths: the plugin to load and the game to run.  The plugin's short name,
//! trimmed of the `_libretro.so` suffix, determines the process-scoped
//! system and save directories.

use vstd::prelude::*;

use crate::text::{file_name, spec_file_name, spec_file_stem, spec_trim_end_matches, str_eq,
    file_stem, trim_end_matches};

verus! {

/// The parsed process arguments.
pub struct Args {
    pub load_auto: bool,
    pub core_path: String,
    pub game_path: String,
}

impl Args {
    /// The short plugin name: the plugin file name without its
    /// `_libretro.so` suffix.
    pub open spec fn spec_core_name(self) -> Seq<char> {
        spec_trim_end_matches(spec_file_name(self.core_path@), "_libretro.so"@)
    }

    /// The game's name: the stem of the game file name.
    pub open spec fn spec_game_name(self) -> Seq<char> {
        spec_file_stem(self.game_path@)
    }

    /// The process-scoped system directory.
    pub open spec fn spec_sys_dir(self) -> Seq<char> {
        "/mnt/SDCARD/Saves/"@ + self.spec_core_name()
    }

    /// The directory the save-state files live in.
    pub open spec fn spec_save_dir(self) -> Seq<char> {
        self.spec_sys_dir() + "/saves"@
    }

    pub fn core_name(&self) -> (r: String)
        ensures
            r@ == self.spec_core_name(),
    {
        let name = file_name(self.core_path.as_str());
        trim_end_matches(name.as_str(), "_libretro.so")
    }

    pub fn game_name(&self) -> (r: String)
        ensures
            r@ == self.spec_game_name(),
    {
        file_stem(self.game_path.as_str())
    }

    pub fn sys_dir(&self) -> (r: String)
        ensures
            r@ == self.spec_sys_dir(),
    {
        let mut r = String::from_str("/mnt/SDCARD/Saves/");
        let core = self.core_name();
        r.append(core.as_str());
        r
    }

    pub fn save_dir(&self) -> (r: String)
        ensures
            r@ == self.spec_save_dir(),
    {
        let mut r = self.sys_dir();
        r.append("/saves");
        r
    }

    /// Parses the argument list (without the program name): an optional
    /// `--load-auto` flag anywhere, then exactly two positional paths, the
    /// plugin first and the game second.  Anything else is rejected.
    pub fn parse(argv: &Vec<String>) -> (r: Option<Args>)
        ensures
            match r {
                Some(a) => {
                    let positional = argv@.map_values(|s: String| s@).filter(
                        |s: Seq<char>| s != "--load-auto"@,
                    );
                    &&& positional.len() == 2
                    &&& a.core_path@ == positional[0]
                    &&& a.game_path@ == positional[1]
                    &&& a.load_auto == (argv@.len() > 2)
                },
                None => true,
            },
    {
        let mut load_auto = false;
        let mut positional: Vec<String> = Vec::new();
        let mut i: usize = 0;
        let ghost views = argv@.map_values(|s: String| s@);
        proof {
            assert(views.take(0) =~= Seq::<Seq<char>>::empty());
        }
        while i < argv.len()
            invariant
                views == argv@.map_values(|s: String| s@),
                0 <= i <= argv@.len(),
                views.len() == argv@.len(),
                positional@.map_values(|s: String| s@) == views.take(i as int).filter(
                    |s: Seq<char>| s != "--load-auto"@,
                ),
                load_auto == (positional@.len() < i),
            decreases argv@.len() - i,
        {
            let arg = &argv[i];
            proof {
                reveal_with_fuel(Seq::filter, 2);
                assert(views.take(i + 1) =~= views.take(i as int).push(arg@));
                assert(views.take(i + 1).drop_last() =~= views.take(i as int));
            }
            if str_eq(arg.as_str(), "--load-auto") {
                load_auto = true;
            } else {
                let ghost prev = positional@;
                positional.push(arg.clone());
                proof {
                    assert(positional@.map_values(|s: String| s@) =~= prev.map_values(
                        |s: String| s@,
                    ).push(arg@));
                }
            }
            i = i + 1;
        }
        proof {
            assert(views.take(argv@.len() as int) =~= views);
        }
        if positional.len() != 2 {
            return None;
        }
        let ghost pos_views = positional@.map_values(|s: String| s@);
        let game_path = match positional.pop() {
            Some(p) => p,
            None => {
                return None;
            },
        };
        let core_path = match positional.pop() {
            Some(p) => p,
            None => {
                return None;
            },
        };
        proof {
            let pos = views.filter(|s: Seq<char>| s != "--load-auto"@);
            assert(game_path@ == pos_views[1]);
            assert(core_path@ == pos_views[0]);
            assert(core_path@ == pos[0]);
            assert(game_path@ == pos[1]);
        }
        Some(Args { load_auto, core_path, game_path })
    }
}

} // verus!
