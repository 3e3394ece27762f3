use vstd::prelude::*;
use crate::manifest::migrator::{MigrationKind, Migrator};
use crate::manifest::migration_path::is_migration_path;

verus! {

/// The migrator from format 0.1.0 to format 0.2.0.
pub open spec fn is_010_to_020_migrator(m: Migrator) -> bool {
    &&& m.from@ == "0.1.0"@
    &&& m.to@ == "0.2.0"@
    &&& m.migrate == MigrationKind::From010To020
}

/// The known migrators: the 0.1.0 to 0.2.0 migrator, listed twice.
pub open spec fn are_known_migrators(ms: Seq<Migrator>) -> bool {
    &&& ms.len() == 2
    &&& forall|i: int| 0 <= i < ms.len() ==> is_010_to_020_migrator(#[trigger] ms[i])
}

/// With the known migrators, a run of migrations leads from format `from` to
/// format `to` exactly when the two formats are the same or `from` is 0.1.0 and
/// `to` is 0.2.0; every such run is empty in the first case and has a single
/// migrator in the second.
pub proof fn lemma_known_migration_paths(ms: Seq<Migrator>, from: Seq<char>, to: Seq<char>)
    requires
        are_known_migrators(ms),
    ensures
        (exists|p: Seq<Migrator>| is_migration_path(ms, p, from, to)) <==> (from == to || (from
            == "0.1.0"@ && to == "0.2.0"@)),
        forall|p: Seq<Migrator>|
            #[trigger] is_migration_path(ms, p, from, to) ==> p.len() == if from == to {
                0int
            } else {
                1int
            },
{
    reveal_strlit("0.1.0");
    reveal_strlit("0.2.0");
    assert("0.1.0"@ != "0.2.0"@) by {
        assert("0.1.0"@[2] != "0.2.0"@[2]);
    }
    assert forall|p: Seq<Migrator>| #[trigger] is_migration_path(ms, p, from, to) implies p.len()
        == if from == to {
        0int
    } else {
        1int
    } && (from == to || (from == "0.1.0"@ && to == "0.2.0"@)) by {
        if p.len() > 0 {
            assert(ms.contains(p[0]));
            assert(ms.contains(p[p.len() - 1]));
            assert(is_010_to_020_migrator(p[0]));
            assert(is_010_to_020_migrator(p[p.len() - 1]));
            if p.len() >= 2 {
                assert(ms.contains(p[1]));
                assert(is_010_to_020_migrator(p[1]));
                assert(p[0].to@ == p[1].from@);
            }
        }
    }
    if from == to {
        assert(is_migration_path(ms, Seq::<Migrator>::empty(), from, to));
    } else if from == "0.1.0"@ && to == "0.2.0"@ {
        assert(ms.contains(ms[0]));
        assert(is_010_to_020_migrator(ms[0]));
        assert(is_migration_path(ms, seq![ms[0]], from, to));
    }
}

/// The migrators between the known manifest formats.
pub fn get_migrators() -> (res: Vec<Migrator>)
    ensures
        are_known_migrators(res@),
{
    let mut res: Vec<Migrator> = Vec::new();
    res.push(
        Migrator {
            from: String::from_str("0.1.0"),
            to: String::from_str("0.2.0"),
            migrate: MigrationKind::From010To020,
        },
    );
    res.push(
        Migrator {
            from: String::from_str("0.1.0"),
            to: String::from_str("0.2.0"),
            migrate: MigrationKind::From010To020,
        },
    );
    res
}

} // verus!
