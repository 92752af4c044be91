use vstd::prelude::*;
use vstd::string::*;
use crate::account::AccountId;
use crate::text::{
    decimal_text, decimal_text_has_digits_only, decimal_text_is_injective, hex_text,
    hex_text_is_injective, push_decimal, push_hex,
};

verus! {

/// The text of the numeric fields of an authorization: each one as a decimal
/// numeral behind an underscore, in the order given.
pub open spec fn numbers_text(numbers: Seq<u128>) -> Seq<char>
    decreases numbers.len(),
{
    if numbers.len() == 0 {
        Seq::<char>::empty()
    } else {
        numbers_text(numbers.drop_last()) + seq!['_'] + decimal_text(numbers.last() as nat)
    }
}

/// The canonical text of an authorization: the action tag, the contract and
/// the caller in hexadecimal with an underscore between them, then the
/// numeric fields.
pub open spec fn authorization_text(
    tag: Seq<char>,
    contract: AccountId,
    caller: AccountId,
    numbers: Seq<u128>,
) -> Seq<char> {
    tag + hex_text(contract.0@) + seq!['_'] + hex_text(caller.0@) + numbers_text(numbers)
}

/// Builds the message that the authority signs for one request.
pub fn authorization_message(
    tag: &str,
    contract: &AccountId,
    caller: &AccountId,
    numbers: &Vec<u128>,
) -> (message: String)
    ensures
        message@ == authorization_text(tag@, *contract, *caller, numbers@),
{
    proof {
        reveal_strlit("_");
    }
    let mut message = String::from_str(tag);
    push_hex(&mut message, &contract.0);
    message.append("_");
    push_hex(&mut message, &caller.0);
    let ghost head = message@;
    assert("_"@ =~= seq!['_']);
    assert(head =~= tag@ + hex_text(contract.0@) + seq!['_'] + hex_text(caller.0@));
    let mut i: usize = 0;
    while i < numbers.len()
        invariant
            i <= numbers@.len(),
            "_"@ == seq!['_'],
            message@ == head + numbers_text(numbers@.take(i as int)),
        decreases numbers@.len() - i,
    {
        message.append("_");
        push_decimal(&mut message, numbers[i]);
        proof {
            let next = numbers@.take(i + 1);
            assert(next.drop_last() =~= numbers@.take(i as int));
            assert(next.last() == numbers@[i as int]);
            assert(message@ =~= head + numbers_text(next));
        }
        i += 1;
    }
    assert(numbers@.take(i as int) =~= numbers@);
    message
}

/// In the text of a list of numbers that is not empty, the underscore before
/// the last numeral is the last underscore of the text.
proof fn lemma_last_underscore(numbers: Seq<u128>)
    requires
        numbers.len() > 0,
    ensures
        ({
            let text = numbers_text(numbers);
            let at = numbers_text(numbers.drop_last()).len() as int;
            &&& at < text.len()
            &&& text[at] == '_'
            &&& forall|j: int| at < j < text.len() ==> text[j] != '_'
            &&& text.subrange(0, at) == numbers_text(numbers.drop_last())
            &&& text.subrange(at + 1, text.len() as int) == decimal_text(numbers.last() as nat)
        }),
{
    let head = numbers_text(numbers.drop_last());
    let numeral = decimal_text(numbers.last() as nat);
    let text = numbers_text(numbers);
    let at = head.len() as int;
    decimal_text_has_digits_only(numbers.last() as nat);
    assert(text == head + seq!['_'] + numeral);
    assert forall|j: int| at < j < text.len() implies text[j] != '_' by {
        assert(text[j] == numeral[j - at - 1]);
    }
    assert(text.subrange(0, at) =~= head);
    assert(text.subrange(at + 1, text.len() as int) =~= numeral);
}

/// Two lists of numbers with the same text are the same list.
pub proof fn numbers_text_is_injective(a: Seq<u128>, b: Seq<u128>)
    requires
        numbers_text(a) == numbers_text(b),
    ensures
        a == b,
    decreases a.len(),
{
    if a.len() == 0 || b.len() == 0 {
        if a.len() > 0 {
            lemma_last_underscore(a);
        }
        if b.len() > 0 {
            lemma_last_underscore(b);
        }
        assert(a =~= b);
    } else {
        lemma_last_underscore(a);
        lemma_last_underscore(b);
        let text = numbers_text(a);
        let at_a = numbers_text(a.drop_last()).len() as int;
        let at_b = numbers_text(b.drop_last()).len() as int;
        if at_a < at_b {
            assert(text[at_b] == '_');
        } else if at_b < at_a {
            assert(text[at_a] == '_');
        }
        numbers_text_is_injective(a.drop_last(), b.drop_last());
        decimal_text_is_injective(a.last() as nat, b.last() as nat);
        assert(a =~= a.drop_last().push(a.last()));
        assert(b =~= b.drop_last().push(b.last()));
    }
}

/// An authorization binds every field: two requests under one tag that have
/// the same text name the same contract, the same caller and the same
/// numbers, in the same order. Whoever changes, drops or reorders a field
/// changes the text.
pub proof fn authorization_text_is_injective(
    tag: Seq<char>,
    contract: AccountId,
    caller: AccountId,
    numbers: Seq<u128>,
    other_contract: AccountId,
    other_caller: AccountId,
    other_numbers: Seq<u128>,
)
    requires
        authorization_text(tag, contract, caller, numbers) == authorization_text(
            tag,
            other_contract,
            other_caller,
            other_numbers,
        ),
    ensures
        contract == other_contract,
        caller == other_caller,
        numbers == other_numbers,
{
    let text = authorization_text(tag, contract, caller, numbers);
    let other = authorization_text(tag, other_contract, other_caller, other_numbers);
    let start = tag.len() as int;
    assert(hex_text(contract.0@).len() == 64);
    assert(hex_text(caller.0@).len() == 64);
    assert(hex_text(other_contract.0@).len() == 64);
    assert(hex_text(other_caller.0@).len() == 64);
    assert(text.subrange(start, start + 64) =~= hex_text(contract.0@));
    assert(other.subrange(start, start + 64) =~= hex_text(other_contract.0@));
    assert(text.subrange(start + 65, start + 129) =~= hex_text(caller.0@));
    assert(other.subrange(start + 65, start + 129) =~= hex_text(other_caller.0@));
    assert(text.subrange(start + 129, text.len() as int) =~= numbers_text(numbers));
    assert(other.subrange(start + 129, other.len() as int) =~= numbers_text(other_numbers));
    hex_text_is_injective(contract.0@, other_contract.0@);
    hex_text_is_injective(caller.0@, other_caller.0@);
    assert(contract.0 =~= other_contract.0);
    assert(caller.0 =~= other_caller.0);
    numbers_text_is_injective(numbers, other_numbers);
}

/// An authorization binds its action: two requests whose tags differ in
/// their first character have different texts, whatever their fields are.
pub proof fn distinct_tags_give_distinct_texts(
    tag: Seq<char>,
    contract: AccountId,
    caller: AccountId,
    numbers: Seq<u128>,
    other_tag: Seq<char>,
    other_contract: AccountId,
    other_caller: AccountId,
    other_numbers: Seq<u128>,
)
    requires
        tag.len() > 0,
        other_tag.len() > 0,
        tag[0] != other_tag[0],
    ensures
        authorization_text(tag, contract, caller, numbers) != authorization_text(
            other_tag,
            other_contract,
            other_caller,
            other_numbers,
        ),
{
    assert(authorization_text(tag, contract, caller, numbers)[0] == tag[0]);
    assert(authorization_text(other_tag, other_contract, other_caller, other_numbers)[0]
        == other_tag[0]);
}

} // verus!
