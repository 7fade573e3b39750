//! Where a font family is looked for.
use vstd::prelude::*;
use crate::chars::{
    contains_seq, has_suffix, join_path, join_path_str, str_contains, str_ends_with, str_equals,
    views,
};

verus! {

/// The font name already names a weight.
pub open spec fn has_weight_spec(n: Seq<char>) -> bool {
    contains_seq(n, "-Bold"@) || contains_seq(n, "-Light"@) || contains_seq(n, "-Medium"@)
        || contains_seq(n, "-Regular"@) || contains_seq(n, " Bold"@) || has_suffix(n, "_Bd"@)
}

/// The file names tried for a font family, in order: the name with each
/// font extension (after the regular weight where the name names none),
/// then a sans-serif fallback unless that is what was asked for.
pub open spec fn font_candidates_spec(n: Seq<char>) -> Seq<Seq<char>> {
    let own = if has_weight_spec(n) {
        seq![n + ".otf"@, n + ".ttf"@, n + ".ttc"@]
    } else {
        seq![n + "-Regular.otf"@, n + "-Regular.ttf"@, n + ".otf"@, n + ".ttf"@, n + ".ttc"@]
    };
    if n != "Helvetica"@ {
        own + seq!["Helvetica.ttc"@, "Arial.ttf"@]
    } else {
        own
    }
}

fn has_weight(font_name: &str) -> (r: bool)
    ensures
        r == has_weight_spec(font_name@),
{
    str_contains(font_name, "-Bold") || str_contains(font_name, "-Light") || str_contains(
        font_name,
        "-Medium",
    ) || str_contains(font_name, "-Regular") || str_contains(font_name, " Bold") || str_ends_with(
        font_name,
        "_Bd",
    )
}

fn push_named(v: &mut Vec<String>, name: &str, ext: &str)
    ensures
        views(final(v)@) == views(old(v)@).push(name@ + ext@),
{
    v.push(String::from_str(name).concat(ext));
    assert(views(final(v)@) =~= views(old(v)@).push(name@ + ext@));
}

pub fn font_candidates(font_name: &str) -> (r: Vec<String>)
    ensures
        views(r@) == font_candidates_spec(font_name@),
{
    let mut v: Vec<String> = Vec::new();
    proof {
        reveal_strlit(".otf");
        reveal_strlit(".ttf");
        reveal_strlit(".ttc");
        reveal_strlit("-Regular.otf");
        reveal_strlit("-Regular.ttf");
        reveal_strlit("Helvetica");
        reveal_strlit("Helvetica.ttc");
        reveal_strlit("Arial.ttf");
        reveal_strlit("Arial");
        reveal_strlit("");
    }
    if !has_weight(font_name) {
        push_named(&mut v, font_name, "-Regular.otf");
        push_named(&mut v, font_name, "-Regular.ttf");
    }
    push_named(&mut v, font_name, ".otf");
    push_named(&mut v, font_name, ".ttf");
    push_named(&mut v, font_name, ".ttc");
    if !str_equals(font_name, "Helvetica") {
        push_named(&mut v, "Helvetica", ".ttc");
        push_named(&mut v, "Arial", ".ttf");
        assert("Helvetica"@ + ".ttc"@ =~= "Helvetica.ttc"@);
        assert("Arial"@ + ".ttf"@ =~= "Arial.ttf"@);
    }
    assert(views(v@) =~= font_candidates_spec(font_name@));
    v
}

/// The font directories, in order of preference: the user's, then the
/// system's.
pub open spec fn font_directories_spec(home: Option<Seq<char>>) -> Seq<Seq<char>> {
    let user = match home {
        Some(h) => seq![join_path(h, "Library/Fonts"@)],
        None => Seq::empty(),
    };
    user + seq!["/Library/Fonts"@, "/System/Library/Fonts"@, "/System/Library/Fonts/Supplemental"@]
}

pub open spec fn opt_view(home: Option<&str>) -> Option<Seq<char>> {
    match home {
        Some(h) => Some(h@),
        None => None,
    }
}

pub fn font_directories(home: Option<&str>) -> (r: Vec<String>)
    ensures
        views(r@) == font_directories_spec(opt_view(home)),
{
    let mut v: Vec<String> = Vec::new();
    proof {
        reveal_strlit("Library/Fonts");
        reveal_strlit("/Library/Fonts");
        reveal_strlit("/System/Library/Fonts");
        reveal_strlit("/System/Library/Fonts/Supplemental");
    }
    if let Some(h) = home {
        v.push(join_path_str(h, "Library/Fonts"));
    }
    v.push(String::from_str("/Library/Fonts"));
    v.push(String::from_str("/System/Library/Fonts"));
    v.push(String::from_str("/System/Library/Fonts/Supplemental"));
    assert(views(v@) =~= font_directories_spec(opt_view(home)));
    v
}

/// Every directory joined with every file name, directories first.
pub open spec fn search_paths_spec(dirs: Seq<Seq<char>>, names: Seq<Seq<char>>) -> Seq<Seq<char>>
    decreases dirs.len(),
{
    if dirs.len() == 0 {
        Seq::empty()
    } else {
        search_paths_spec(dirs.drop_last(), names) + names.map_values(
            |n: Seq<char>| join_path(dirs.last(), n),
        )
    }
}

/// The files to try, in order, to load the font family `font_name`; the first
/// one that reads and parses as a font is the font.
pub fn font_search_paths(font_name: &str, home: Option<&str>) -> (r: Vec<String>)
    ensures
        views(r@) == search_paths_spec(
            font_directories_spec(opt_view(home)),
            font_candidates_spec(font_name@),
        ),
{
    let dirs = font_directories(home);
    let names = font_candidates(font_name);
    let mut out: Vec<String> = Vec::new();
    let mut i: usize = 0;
    while i < dirs.len()
        invariant
            i <= dirs@.len(),
            views(out@) == search_paths_spec(views(dirs@).subrange(0, i as int), views(names@)),
        decreases dirs@.len() - i,
    {
        let ghost before = views(out@);
        let mut j: usize = 0;
        while j < names.len()
            invariant
                i < dirs@.len(),
                j <= names@.len(),
                views(out@) == before + views(names@).subrange(0, j as int).map_values(
                    |n: Seq<char>| join_path(dirs@[i as int]@, n),
                ),
            decreases names@.len() - j,
        {
            let p = join_path_str(dirs[i].as_str(), names[j].as_str());
            let ghost mid = views(out@);
            out.push(p);
            j = j + 1;
            assert(views(out@) =~= mid.push(p@));
            assert(views(out@) =~= before + views(names@).subrange(0, j as int).map_values(
                |n: Seq<char>| join_path(dirs@[i as int]@, n),
            ));
        }
        proof {
            let d = views(dirs@).subrange(0, i + 1);
            assert(d.drop_last() =~= views(dirs@).subrange(0, i as int));
            assert(views(names@).subrange(0, j as int) =~= views(names@));
        }
        i = i + 1;
    }
    assert(views(dirs@).subrange(0, i as int) =~= views(dirs@));
    out
}

} // verus!
