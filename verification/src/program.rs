use vstd::prelude::*;

use crate::platypus::{Animal, EggLayer, NorthernPlatypus, Platypus, egg_line, older, told_age};

verus! {

/// The text the program writes: the platypus, aged from four to fourteen,
/// tells its age on a line of its own, then lays two eggs.
pub open spec fn program_output() -> Seq<char> {
    "I am 14 years old\nA northern platypus layed one egg\nA northern platypus layed one egg\n"@
}

/// What the program does with a platypus, seen only through the traits it
/// implements: through its `Animal` view it grows one year older and the
/// function it hands back tells its age on a line of its own; through its
/// `EggLayer` view it then lays two eggs. Gives back the text written.
fn grow_tell_and_lay<P: Platypus>(platypus: &mut P) -> (out: String)
    ensures
        out@ == P::description(P::grown(old(platypus)@)) + "\n"@
            + P::egg_text(P::grown(old(platypus)@))
            + P::egg_text(P::after_egg(P::grown(old(platypus)@))),
        final(platypus)@ == P::after_egg(P::after_egg(P::grown(old(platypus)@))),
{
    let tell = Animal::BecomeOlder(platypus);
    let mut out = tell.call(platypus);
    out.append("\n");
    let eggs = EggLayer::Lay2Eggs(platypus);
    out.append(eggs.as_str());
    out
}

/// Holder of the program's entry point.
pub struct _default {}

impl _default {
    /// Runs the program and gives back the text it writes.
    pub fn Main() -> (out: String)
        ensures
            out@ == program_output(),
    {
        let mut plato = NorthernPlatypus { age: String::from_str("3") };
        plato.age = String::from_str("4");
        let out = grow_tell_and_lay(&mut plato);
        proof {
            reveal_strlit("4");
            reveal_strlit("1");
            reveal_strlit("14");
            assert(older("4"@) =~= "14"@);
            assert(plato.age@ =~= "14"@);
        }

        let mut x: Vec<i32> = vec![0, 0];
        x.set(1, 2);
        let second: i32 = x[1];
        x.set(0, second);
        assert(x@ == seq![2i32, 2i32]);

        proof {
            reveal_strlit("14");
            reveal_strlit("\n");
            reveal_strlit("I am ");
            reveal_strlit(" years old");
            reveal_strlit("A northern platypus layed one egg\n");
            reveal_strlit(
                "I am 14 years old\nA northern platypus layed one egg\nA northern platypus layed one egg\n",
            );
            assert(out@ =~= told_age("14"@) + "\n"@ + egg_line() + egg_line());
        }
        out
    }
}

} // verus!
