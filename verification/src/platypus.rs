use vstd::prelude::*;

verus! {

/// The age after one more year: a `1` put in front of the old age text.
pub open spec fn older(age: Seq<char>) -> Seq<char> {
    "1"@ + age
}

/// What a platypus of the given age says of itself.
pub open spec fn told_age(age: Seq<char>) -> Seq<char> {
    "I am "@ + age + " years old"@
}

/// The line a northern platypus writes when it lays one egg.
pub open spec fn egg_line() -> Seq<char> {
    "A northern platypus layed one egg\n"@
}

/// The line a northern platypus writes when it gives milk.
pub open spec fn milk_line() -> Seq<char> {
    "A norther platypus gave milk\n"@
}

/// An animal that can grow older, and that can then be asked how old it is.
/// Its view is what the animal is, seen from outside.
pub trait Animal: View + Sized {
    /// What the animal is once it has grown one year older.
    spec fn grown(v: Self::V) -> Self::V;

    /// What the animal says when asked how old it is.
    spec fn description(v: Self::V) -> Seq<char>;

    /// Says how old the animal is.
    fn describe(&self) -> (text: String)
        ensures
            text@ == Self::description(self@),
    ;

    /// Makes the animal one year older, and hands back a function that tells
    /// its age when called.
    fn BecomeOlder(&mut self) -> (tell: Teller<Self>)
        ensures
            final(self)@ == Self::grown(old(self)@),
    ;
}

/// An animal that lays eggs.
pub trait EggLayer: Animal {
    /// The text written for the next egg.
    spec fn egg_text(v: Self::V) -> Seq<char>;

    /// What the animal is once it has laid one egg.
    spec fn after_egg(v: Self::V) -> Self::V;

    /// Lays one egg, and gives back the text written for it.
    fn Lay1Egg(&mut self) -> (text: String)
        ensures
            text@ == Self::egg_text(old(self)@),
            final(self)@ == Self::after_egg(old(self)@),
    ;

    /// Lays two eggs, one after the other.
    fn Lay2Eggs(&mut self) -> (text: String)
        ensures
            text@ == Self::egg_text(old(self)@) + Self::egg_text(Self::after_egg(old(self)@)),
            final(self)@ == Self::after_egg(Self::after_egg(old(self)@)),
    {
        let mut text = self.Lay1Egg();
        let second = self.Lay1Egg();
        text.append(second.as_str());
        text
    }
}

/// An animal that gives milk.
pub trait Mammal: Animal {
    /// The text written when the animal next gives milk.
    spec fn milk_text(v: Self::V) -> Seq<char>;

    /// What the animal is once it has given milk.
    spec fn after_milk(v: Self::V) -> Self::V;

    /// Gives milk, and gives back the text written for it.
    fn GiveMilk(&mut self) -> (text: String)
        ensures
            text@ == Self::milk_text(old(self)@),
            final(self)@ == Self::after_milk(old(self)@),
    ;
}

/// An animal that is at once an egg layer and a mammal.
pub trait Platypus: Animal + EggLayer + Mammal {
}

/// The function that `BecomeOlder` hands back. It is called with the animal
/// it was made by, and reads that animal's age at the moment it is called, so
/// it reports the age that later calls of `BecomeOlder` have set.
pub struct Teller<A> {
    kind: std::marker::PhantomData<A>,
}

impl<A: Animal> Teller<A> {
    /// Asks the animal how old it is now.
    pub fn call(&self, animal: &A) -> (text: String)
        ensures
            text@ == A::description(animal@),
    {
        animal.describe()
    }
}

/// A platypus of the northern kind, which knows its age as text.
pub struct NorthernPlatypus {
    pub age: String,
}

impl View for NorthernPlatypus {
    type V = Seq<char>;

    /// A northern platypus is its age.
    open spec fn view(&self) -> Seq<char> {
        self.age@
    }
}

impl Animal for NorthernPlatypus {
    open spec fn grown(v: Seq<char>) -> Seq<char> {
        older(v)
    }

    open spec fn description(v: Seq<char>) -> Seq<char> {
        told_age(v)
    }

    fn describe(&self) -> (text: String)
        ensures
            text@ == "I am "@ + self.age@ + " years old"@,
    {
        let mut text = String::from_str("I am ");
        text.append(self.age.as_str());
        text.append(" years old");
        proof {
            reveal_strlit("I am ");
            reveal_strlit(" years old");
        }
        text
    }

    fn BecomeOlder(&mut self) -> (tell: Teller<NorthernPlatypus>)
        ensures
            final(self).age@ == older(old(self).age@),
    {
        let mut age = String::from_str("1");
        age.append(self.age.as_str());
        proof {
            reveal_strlit("1");
        }
        self.age = age;
        Teller { kind: std::marker::PhantomData }
    }
}

impl EggLayer for NorthernPlatypus {
    open spec fn egg_text(v: Seq<char>) -> Seq<char> {
        egg_line()
    }

    open spec fn after_egg(v: Seq<char>) -> Seq<char> {
        v
    }

    fn Lay1Egg(&mut self) -> (text: String)
        ensures
            text@ == "A northern platypus layed one egg\n"@,
            *final(self) == *old(self),
    {
        String::from_str("A northern platypus layed one egg\n")
    }
}

impl Mammal for NorthernPlatypus {
    open spec fn milk_text(v: Seq<char>) -> Seq<char> {
        milk_line()
    }

    open spec fn after_milk(v: Seq<char>) -> Seq<char> {
        v
    }

    fn GiveMilk(&mut self) -> (text: String)
        ensures
            text@ == "A norther platypus gave milk\n"@,
            *final(self) == *old(self),
    {
        String::from_str("A norther platypus gave milk\n")
    }
}

impl Platypus for NorthernPlatypus {
}

/// Whatever its age, a northern platypus writes the same egg line for every
/// egg, and that line is "A northern platypus layed one egg" and a newline;
/// laying an egg does not change it.
pub proof fn lemma_platypus_egg_line_is_fixed(v: Seq<char>, w: Seq<char>)
    ensures
        <NorthernPlatypus as EggLayer>::egg_text(v) == <NorthernPlatypus as EggLayer>::egg_text(w),
        <NorthernPlatypus as EggLayer>::egg_text(v) == "A northern platypus layed one egg\n"@,
        <NorthernPlatypus as EggLayer>::after_egg(v) == v,
{
}

/// Whatever its age, a northern platypus laying two eggs writes the egg line
/// exactly twice, and its age stays what it was.
pub proof fn lemma_platypus_two_eggs(v: Seq<char>)
    ensures
        <NorthernPlatypus as EggLayer>::egg_text(v)
            + <NorthernPlatypus as EggLayer>::egg_text(<NorthernPlatypus as EggLayer>::after_egg(v))
            == "A northern platypus layed one egg\n"@ + "A northern platypus layed one egg\n"@,
        <NorthernPlatypus as EggLayer>::after_egg(<NorthernPlatypus as EggLayer>::after_egg(v)) == v,
{
}

/// Whatever its age, a northern platypus giving milk writes
/// "A norther platypus gave milk" and a newline, the same each time, and its
/// age stays what it was.
pub proof fn lemma_platypus_milk_line_is_fixed(v: Seq<char>, w: Seq<char>)
    ensures
        <NorthernPlatypus as Mammal>::milk_text(v) == <NorthernPlatypus as Mammal>::milk_text(w),
        <NorthernPlatypus as Mammal>::milk_text(v) == "A norther platypus gave milk\n"@,
        <NorthernPlatypus as Mammal>::after_milk(v) == v,
{
}

/// A northern platypus tells its whole age, of any length: the text is
/// "I am ", then every character of the age in order, then " years old", and
/// nothing else.
pub proof fn lemma_platypus_tells_whole_age(v: Seq<char>)
    ensures
        <NorthernPlatypus as Animal>::description(v).len() == v.len() + 15,
        <NorthernPlatypus as Animal>::description(v).subrange(0, 5) == "I am "@,
        <NorthernPlatypus as Animal>::description(v).subrange(5, 5 + v.len() as int) == v,
        <NorthernPlatypus as Animal>::description(v).subrange(5 + v.len() as int, v.len() + 15int)
            == " years old"@,
{
    reveal_strlit("I am ");
    reveal_strlit(" years old");
    let d = <NorthernPlatypus as Animal>::description(v);
    assert(d.subrange(0, 5) =~= "I am "@);
    assert(d.subrange(5, 5 + v.len() as int) =~= v);
    assert(d.subrange(5 + v.len() as int, v.len() + 15int) =~= " years old"@);
}

/// Telling the age of two platypuses gives the same text exactly when their
/// ages are the same.
pub proof fn lemma_platypus_tells_age_apart(v: Seq<char>, w: Seq<char>)
    ensures
        (<NorthernPlatypus as Animal>::description(v) == <NorthernPlatypus as Animal>::description(w))
            <==> v == w,
{
    lemma_platypus_tells_whole_age(v);
    lemma_platypus_tells_whole_age(w);
    if <NorthernPlatypus as Animal>::description(v) == <NorthernPlatypus as Animal>::description(w) {
        assert(v.len() == w.len());
        assert(v =~= w);
    }
}

} // verus!
