use vstd::prelude::*;

verus! {

/// The environment variables the service cannot start without, in the order
/// they are reported.
pub open spec fn required_env_names() -> Seq<Seq<char>> {
    seq!["SERVER_HOST"@, "SERVER_PORT"@, "DATABASE_URL"@]
}

/// Lists the environment variables the service cannot start without.
pub fn required_envs() -> (names: Vec<&'static str>)
    ensures
        names@.len() == required_env_names().len(),
        forall|i: int| 0 <= i < names@.len() ==> #[trigger] names@[i]@ == required_env_names()[i],
        names@.len() == 3,
        names@[0]@ == "SERVER_HOST"@,
        names@[1]@ == "SERVER_PORT"@,
        names@[2]@ == "DATABASE_URL"@,
{
    let names = vec!["SERVER_HOST", "SERVER_PORT", "DATABASE_URL"];
    names
}

/// Of the first `n` names, those whose flag says they are not set, in order.
pub open spec fn missing_upto(names: Seq<Seq<char>>, is_set: Seq<bool>, n: nat) -> Seq<Seq<char>>
    decreases n,
{
    if n == 0 {
        seq![]
    } else if is_set[n - 1] {
        missing_upto(names, is_set, (n - 1) as nat)
    } else {
        missing_upto(names, is_set, (n - 1) as nat).push(names[n - 1])
    }
}

/// The required variables whose flag says they are not set, in order.
pub open spec fn missing_envs(is_set: Seq<bool>) -> Seq<Seq<char>> {
    missing_upto(required_env_names(), is_set, required_env_names().len())
}

/// A name as the `Debug` form of a string shows it, for names with no
/// character that needs escaping.
pub open spec fn quoted(name: Seq<char>) -> Seq<char> {
    "\""@ + name + "\""@
}

/// The quoted names, separated by `", "`.
pub open spec fn joined(names: Seq<Seq<char>>) -> Seq<char>
    decreases names.len(),
{
    if names.len() == 0 {
        seq![]
    } else if names.len() == 1 {
        quoted(names[0])
    } else {
        joined(names.drop_last()) + ", "@ + quoted(names.last())
    }
}

/// A list of names as the `Debug` form of a `Vec` of strings shows it.
pub open spec fn debug_list(names: Seq<Seq<char>>) -> Seq<char> {
    "["@ + joined(names) + "]"@
}

/// The message reporting missing variables.
pub open spec fn missing_envs_message(missing: Seq<Seq<char>>) -> Seq<char> {
    debug_list(missing) + " are missing env variables."@
}

/// Renders a list of names the way `{:?}` renders a `Vec` of strings that
/// need no escaping: `["A", "B"]`.
fn debug_list_text(names: &Vec<&str>) -> (text: String)
    ensures
        text@ == debug_list(names@.map_values(|s: &str| s@)),
{
    let ghost views = names@.map_values(|s: &str| s@);
    let mut text = String::from_str("[");
    let mut i: usize = 0;
    while i < names.len()
        invariant
            i <= names.len(),
            views == names@.map_values(|s: &str| s@),
            text@ == "["@ + joined(views.take(i as int)),
        decreases names.len() - i,
    {
        if i > 0 {
            text.append(", ");
        }
        text.append("\"");
        text.append(names[i]);
        text.append("\"");
        proof {
            let next = views.take(i + 1);
            assert(next.drop_last() =~= views.take(i as int));
            assert(next.last() == names@[i as int]@);
            if i == 0 {
                assert(joined(views.take(0)) =~= Seq::<char>::empty());
            }
        }
        assert(text@ =~= "["@ + joined(views.take(i + 1)));
        i = i + 1;
    }
    assert(views.take(names.len() as int) =~= views);
    text.append("]");
    text
}

/// Whether `part` occurs in `text` as a contiguous run of characters.
pub open spec fn mentions(text: Seq<char>, part: Seq<char>) -> bool {
    exists|k: int| 0 <= k && k + part.len() <= text.len() && #[trigger] text.subrange(k, k + part.len()) == part
}

/// Nothing is reported missing exactly when every flag of the first `n`
/// says set.
pub proof fn lemma_nothing_missing_iff_all_set(names: Seq<Seq<char>>, is_set: Seq<bool>, n: nat)
    requires
        n <= is_set.len(),
    ensures
        missing_upto(names, is_set, n).len() == 0 <==> forall|i: int| 0 <= i < n ==> is_set[i],
    decreases n,
{
    if n > 0 {
        lemma_nothing_missing_iff_all_set(names, is_set, (n - 1) as nat);
        if !is_set[n - 1] {
            assert(missing_upto(names, is_set, n).len() > 0);
        }
    }
}

/// A name whose flag says not set is among those reported missing; returns
/// where it stands.
pub proof fn lemma_unset_is_missing(names: Seq<Seq<char>>, is_set: Seq<bool>, n: nat, i: int) -> (j: int)
    requires
        0 <= i < n,
        n <= is_set.len(),
        !is_set[i],
    ensures
        0 <= j < missing_upto(names, is_set, n).len(),
        missing_upto(names, is_set, n)[j] == names[i],
    decreases n,
{
    if i == n - 1 {
        missing_upto(names, is_set, (n - 1) as nat).len() as int
    } else {
        let j = lemma_unset_is_missing(names, is_set, (n - 1) as nat, i);
        if !is_set[n - 1] {
            assert(missing_upto(names, is_set, n) == missing_upto(names, is_set, (n - 1) as nat).push(
                names[n - 1],
            ));
        }
        j
    }
}

/// Every listed name appears, quoted, in the joined list; returns where.
pub proof fn lemma_joined_quotes_each(names: Seq<Seq<char>>, j: int) -> (k: int)
    requires
        0 <= j < names.len(),
    ensures
        0 <= k && k + quoted(names[j]).len() <= joined(names).len(),
        joined(names).subrange(k, k + quoted(names[j]).len()) == quoted(names[j]),
    decreases names.len(),
{
    if names.len() == 1 {
        assert(joined(names).subrange(0, quoted(names[j]).len() as int) =~= quoted(names[j]));
        0
    } else if j == names.len() - 1 {
        let front = joined(names.drop_last()) + ", "@;
        assert(joined(names) == front + quoted(names.last()));
        assert(joined(names).subrange(front.len() as int, (front.len() + quoted(names[j]).len()) as int)
            =~= quoted(names[j]));
        front.len() as int
    } else {
        let k = lemma_joined_quotes_each(names.drop_last(), j);
        let rest = joined(names.drop_last());
        assert(names.drop_last()[j] == names[j]);
        assert(joined(names) == rest + ", "@ + quoted(names.last()));
        assert(joined(names).subrange(k, k + quoted(names[j]).len()) =~= rest.subrange(
            k,
            k + quoted(names[j]).len(),
        ));
        k
    }
}

/// The message reporting missing variables names, quoted, every variable
/// whose flag says it is not set.
pub proof fn lemma_message_names_unset(is_set: Seq<bool>, i: int)
    requires
        is_set.len() == 3,
        0 <= i < 3,
        !is_set[i],
    ensures
        mentions(
            missing_envs_message(missing_envs(is_set)),
            "\""@ + required_env_names()[i] + "\""@,
        ),
{
    let missing = missing_envs(is_set);
    let j = lemma_unset_is_missing(required_env_names(), is_set, 3, i);
    let k = lemma_joined_quotes_each(missing, j);
    let part = quoted(required_env_names()[i]);
    let msg = missing_envs_message(missing);
    reveal_strlit("[");
    assert(missing[j] == required_env_names()[i]);
    assert(quoted(missing[j]) == part);
    assert("["@.len() == 1);
    assert(msg == "["@ + joined(missing) + "]"@ + " are missing env variables."@);
    assert(msg.subrange(k + 1, k + 1 + part.len()) =~= joined(missing).subrange(k, k + part.len()));
    assert(msg.subrange(k + 1, k + 1 + part.len()) == part);
}

/// Checks which required variables are set, given one flag per variable of
/// `required_envs` in that order.  Succeeds exactly when all three are set;
/// otherwise fails with the message naming, quoted, each missing one.
pub fn check_envs(is_set: [bool; 3]) -> (result: Result<(), String>)
    ensures
        result is Ok <==> missing_envs(is_set@).len() == 0,
        result matches Err(msg) ==> msg@ == missing_envs_message(missing_envs(is_set@)),
        result is Ok <==> is_set@[0] && is_set@[1] && is_set@[2],
        forall|i: int|
            0 <= i < 3 && !is_set@[i] ==> (result matches Err(msg) && mentions(
                msg@,
                "\""@ + required_env_names()[i] + "\""@,
            )),
{
    let names = required_envs();
    let mut missing: Vec<&str> = Vec::new();
    let mut i: usize = 0;
    while i < 3
        invariant
            i <= 3,
            names@.len() == 3,
            forall|k: int| 0 <= k < 3 ==> #[trigger] names@[k]@ == required_env_names()[k],
            missing@.map_values(|s: &str| s@) == missing_upto(required_env_names(), is_set@, i as nat),
        decreases 3 - i,
    {
        let ghost before = missing@;
        if !is_set[i] {
            missing.push(names[i]);
            assert(missing@.map_values(|s: &str| s@) =~= before.map_values(|s: &str| s@).push(names@[i as int]@));
        }
        i = i + 1;
    }
    proof {
        lemma_nothing_missing_iff_all_set(required_env_names(), is_set@, 3);
        assert((forall|k: int| 0 <= k < 3 ==> is_set@[k]) <==> (is_set@[0] && is_set@[1] && is_set@[2]));
        assert forall|k: int| 0 <= k < 3 && !is_set@[k] implies mentions(
            missing_envs_message(missing_envs(is_set@)),
            "\""@ + required_env_names()[k] + "\""@,
        ) by {
            lemma_message_names_unset(is_set@, k);
        }
    }
    if missing.len() == 0 {
        Ok(())
    } else {
        let mut msg = debug_list_text(&missing);
        msg.append(" are missing env variables.");
        Err(msg)
    }
}

} // verus!
