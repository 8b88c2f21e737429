//! Consoles, games and the game cache.
//!
//! A game is recognised by its file extension; each console carries a fixed
//! display name and default emulation plugin.  The cache groups the games
//! found on disk by console.

use vstd::prelude::*;

use crate::text::{extension, file_stem, spec_extension, spec_file_name, spec_file_stem, str_eq,
    starts_with2};

verus! {

/// The consoles the device emulates.
#[derive(Clone, Copy, Debug, PartialEq, Eq, Structural)]
pub enum Console {
    NES,
    Snes,
    GB,
    GBC,
    GBA,
}

impl Console {
    /// Every console, in declaration order.
    pub fn all() -> (r: Vec<Console>)
        ensures
            r@ =~= seq![
                Console::NES,
                Console::Snes,
                Console::GB,
                Console::GBC,
                Console::GBA,
            ],
    {
        let mut r: Vec<Console> = Vec::new();
        r.push(Console::NES);
        r.push(Console::Snes);
        r.push(Console::GB);
        r.push(Console::GBC);
        r.push(Console::GBA);
        r
    }

    /// The console using a game-file extension, if it is recognised.
    pub open spec fn spec_from_str(ext: Seq<char>) -> Option<Console> {
        if ext == "fc"@ {
            Some(Console::NES)
        } else if ext == "sfc"@ {
            Some(Console::Snes)
        } else if ext == "gb"@ {
            Some(Console::GB)
        } else if ext == "gbc"@ {
            Some(Console::GBC)
        } else if ext == "gba"@ {
            Some(Console::GBA)
        } else {
            None
        }
    }

    /// Recognises a game-file extension.
    pub fn from_str(ext: &str) -> (r: Option<Console>)
        ensures
            r == Console::spec_from_str(ext@),
    {
        if str_eq(ext, "fc") {
            Some(Console::NES)
        } else if str_eq(ext, "sfc") {
            Some(Console::Snes)
        } else if str_eq(ext, "gb") {
            Some(Console::GB)
        } else if str_eq(ext, "gbc") {
            Some(Console::GBC)
        } else if str_eq(ext, "gba") {
            Some(Console::GBA)
        } else {
            None
        }
    }

    /// The console's display name.
    pub fn name(&self) -> (r: &'static str)
        ensures
            match self {
                Console::NES => r@ == "NES"@,
                Console::Snes => r@ == "SNES"@,
                Console::GB => r@ == "GameBoy"@,
                Console::GBC => r@ == "GB Color"@,
                Console::GBA => r@ == "GBA"@,
            },
    {
        match self {
            Console::NES => "NES",
            Console::Snes => "SNES",
            Console::GB => "GameBoy",
            Console::GBC => "GB Color",
            Console::GBA => "GBA",
        }
    }

    /// The default emulation plugin for the console.
    pub fn default_core(&self) -> (r: &'static str)
        ensures
            match self {
                Console::NES => r@ == ""@,
                Console::Snes => r@ == "snes9x2010"@,
                Console::GB => r@ == "gambatte"@,
                Console::GBC => r@ == "gambatte"@,
                Console::GBA => r@ == "vbam"@,
            },
    {
        match self {
            Console::NES => "",
            Console::Snes => "snes9x2010",
            Console::GB => "gambatte",
            Console::GBC => "gambatte",
            Console::GBA => "vbam",
        }
    }
}

/// One game on disk: its path, the console its extension names, and the
/// plugin that runs it.
pub struct Game {
    path: String,
    console: Console,
    core_name: String,
}

impl Game {
    pub closed spec fn spec_path(self) -> Seq<char> {
        self.path@
    }

    pub closed spec fn spec_console(self) -> Console {
        self.console
    }

    pub closed spec fn spec_core(self) -> Seq<char> {
        self.core_name@
    }

    /// Whether a path names a recognisable game: its extension names a
    /// console and its file name is not a metadata artefact starting with
    /// a dot and an underscore.
    pub open spec fn spec_accepts(path: Seq<char>) -> bool {
        &&& match spec_extension(path) {
            Some(e) => Console::spec_from_str(e) is Some,
            None => false,
        }
        &&& !(spec_file_name(path).len() >= 2 && spec_file_name(path)[0] == '.' && spec_file_name(
            path,
        )[1] == '_')
    }

    /// Classifies a path.  A game is returned exactly for the paths that
    /// `spec_accepts` admits, with the console of the extension and its
    /// default plugin.
    pub fn new(path: &str) -> (r: Option<Game>)
        ensures
            r is Some <==> Game::spec_accepts(path@),
            match r {
                Some(g) => {
                    &&& g.spec_path() == path@
                    &&& Some(g.spec_console()) == Console::spec_from_str(
                        spec_extension(path@)->Some_0,
                    )
                    &&& match Console::spec_from_str(spec_extension(path@)->Some_0) {
                        Some(c) => match c {
                            Console::NES => g.spec_core() == ""@,
                            Console::Snes => g.spec_core() == "snes9x2010"@,
                            Console::GB => g.spec_core() == "gambatte"@,
                            Console::GBC => g.spec_core() == "gambatte"@,
                            Console::GBA => g.spec_core() == "vbam"@,
                        },
                        None => false,
                    }
                },
                None => true,
            },
    {
        let ext = match extension(path) {
            Some(e) => e,
            None => {
                return None;
            },
        };
        let console = match Console::from_str(ext.as_str()) {
            Some(c) => c,
            None => {
                return None;
            },
        };
        let name = crate::text::file_name(path);
        if starts_with2(name.as_str(), '.', '_') {
            return None;
        }
        Some(
            Game {
                path: String::from_str(path),
                core_name: String::from_str(console.default_core()),
                console,
            },
        )
    }

    /// The game's path.
    pub fn as_path(&self) -> (r: &str)
        ensures
            r@ == self.spec_path(),
    {
        self.path.as_str()
    }

    /// The game's display name: the stem of its file name.
    pub fn full_name(&self) -> (r: String)
        ensures
            r@ == spec_file_stem(self.spec_path()),
    {
        file_stem(self.path.as_str())
    }

    /// The console the game belongs to.
    pub fn console(&self) -> (r: &Console)
        ensures
            r == self.spec_console(),
    {
        &self.console
    }

    /// The plugin that runs the game.
    pub fn core_name(&self) -> (r: &str)
        ensures
            r@ == self.spec_core(),
    {
        self.core_name.as_str()
    }
}

/// The games found on disk, grouped by console.
pub struct GameCache {
    pub nes: Vec<Game>,
    pub snes: Vec<Game>,
    pub gb: Vec<Game>,
    pub gbc: Vec<Game>,
    pub gba: Vec<Game>,
}

impl GameCache {
    /// The cached list for one console.
    pub open spec fn spec_list(self, c: Console) -> Seq<Game> {
        match c {
            Console::NES => self.nes@,
            Console::Snes => self.snes@,
            Console::GB => self.gb@,
            Console::GBC => self.gbc@,
            Console::GBA => self.gba@,
        }
    }

    /// The games of one console.
    pub fn list(&self, c: Console) -> (r: &Vec<Game>)
        ensures
            r@ == self.spec_list(c),
    {
        match c {
            Console::NES => &self.nes,
            Console::Snes => &self.snes,
            Console::GB => &self.gb,
            Console::GBC => &self.gbc,
            Console::GBA => &self.gba,
        }
    }
}

/// Sorts the discovered games into the per-console lists.  Every list holds
/// exactly the games of its console, in discovery order.
pub fn group_games(games: Vec<Game>) -> (r: GameCache)
    ensures
        forall|c: Console|
            #[trigger] r.spec_list(c) == games@.filter(|x: Game| x.spec_console() == c),
{
    let mut rest = games;
    let total: usize = rest.len();
    let mut r = GameCache {
        nes: Vec::new(),
        snes: Vec::new(),
        gb: Vec::new(),
        gbc: Vec::new(),
        gba: Vec::new(),
    };
    let ghost all = rest@;
    let mut i: usize = 0;
    proof {
        assert(all.take(0) =~= Seq::<Game>::empty());
        reveal_with_fuel(Seq::filter, 1);
        assert forall|c: Console| #[trigger] r.spec_list(c) == all.take(0).filter(
            |x: Game| x.spec_console() == c,
        ) by {
            assert(all.take(0).filter(|x: Game| x.spec_console() == c) =~= Seq::<Game>::empty());
        }
    }
    while rest.len() > 0
        invariant
            all == all.take(i as int) + rest@,
            all.len() == total,
            i <= total,
            forall|c: Console|
                #[trigger] r.spec_list(c) == all.take(i as int).filter(
                    |x: Game| x.spec_console() == c,
                ),
        decreases rest@.len(),
    {
        let g = rest.remove(0);
        let ghost prefix = all.take(i as int);
        let ghost gval = g;
        proof {
            assert(all.take(i + 1) =~= prefix.push(gval));
            assert(all.take(i + 1).drop_last() =~= prefix);
        }
        let ghost r0 = r;
        match g.console() {
            Console::NES => r.nes.push(g),
            Console::Snes => r.snes.push(g),
            Console::GB => r.gb.push(g),
            Console::GBC => r.gbc.push(g),
            Console::GBA => r.gba.push(g),
        }
        proof {
            assert forall|c: Console| #[trigger] r.spec_list(c) == all.take(i + 1).filter(
                |x: Game| x.spec_console() == c,
            ) by {
                reveal_with_fuel(Seq::filter, 2);
                let s = all.take(i + 1);
                assert(s.len() > 0);
                assert(s.last() == gval);
                assert(s.drop_last() == prefix);
                let f = s.filter(|x: Game| x.spec_console() == c);
                if gval.spec_console() == c {
                    assert(r.spec_list(c) == r0.spec_list(c).push(gval));
                    assert(f == prefix.filter(|x: Game| x.spec_console() == c).push(gval));
                } else {
                    assert(r.spec_list(c) == r0.spec_list(c));
                    assert(f == prefix.filter(|x: Game| x.spec_console() == c));
                }
            }
        }
        i = i + 1;
    }
    proof {
        assert(all.take(i as int) =~= all);
    }
    r
}

} // verus!
