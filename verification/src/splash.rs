//! The pages and scripts shown in the launcher's web views: the splash page,
//! the navigation bar injected into the dsh page, and the scripts that carry
//! bootstrap messages to the splash page.

use vstd::prelude::*;

use crate::bootstrap::{notice, Notice, UiMsg};
use crate::env_check::{version_view, EnvCheckResult};
use crate::text::debug_quoted;
use crate::text::debug_str;
use crate::text::contains_run;

verus! {

const SPLASH_0: &'static str = r#"<!DOCTYPE html>
<html lang="zh">
<head>
<meta charset="utf-8">
<style>
  * { box-sizing: border-box; }
  body { margin: 0; min-height: 100vh; background: #000; color: #fff; font-family: "Segoe UI", system-ui, sans-serif; }

  /* 启动页面 */
  #splash { display: flex; flex-direction: column; align-items: center; justify-content: center; min-height: 100vh; gap: 12px; }
  #splash main { width: 360px; text-align: center; }
  h1 { margin: 0 0 5px; font-size: 21px; font-weight: 600; display: flex; align-items: center; justify-content: center; gap: 10px; }
  .title-icon { width: 24px; height: 24px; flex-shrink: 0; display: inline-block; background-image: url("data:image/png;base64,iVBORw0KGgoAAAANSUhEUgAAAQAAAAEACAYAAABccqhmAAAABmJLR0QA/wD/AP+gvaeTAAAgAElEQVR4nO3deWCcVb0+8Oc5k7RpacvWBbgg4EU2gR9lE70sBQRMm0lbMIKAUOES2kwi4EVR4ep4ryAKCNhMWoLIIu0VA7TNpC1UgbKJLEWQgmyyiNBdwNI2aTLn+f2RFkrJMpN5t5k5n78gnfmep2nm5J13zvkewHEcx3Ecx3Ecx3Ecx3Ecx3Ecx3Ecx3Ecx3Ecx3Ecx3Ecx3Ecx3Ecx3Ecx3Ecx3Ecx3Ecx3Ecx3Ecx3Ecx3Ecx3Ecx"#;
const SPLASH_1: &'static str = r#"3Ecx3Ecx3Ecx3Ecx3Ecx3Ecx3Ecx3Ecx3Ecx3Ecx3GcXjHsAI6Tr5qLNWT9Bvz7UIM3W5r4Ydh5CokJO4Dj5KMqocntG/WOien5dmp5VZ3ODDtTIXFXAE7BmpjQFyz0CIDyLb7cYS33nz+Dr4eVq5C4KwCnINXUKGahZnzyxQ8Ag03M1oeRqRC5CcApSB2jcRaAg3r8Q/E0QO7qNgvum1QCamtV/k4MuxliFxiMhMV2NBi0+c8lbKCwqot4ff0ovL44ya4w8/YnmZRZskovAtin1weR+6Ub+VJwqQpTWdgBHG9VNmhULIMjSXuYwIMJ7L8M2tMAMQCAABCQPvk8sfsBw1dhfTxhHwN559oPMWvxrWwP/C/Rj2dWowp9vfgBEDgZgJsA+uGuAApcTZ2GdRgcD9mTBB4HYH8Py79uyEnzGvm8hzXzVp2w96r7Bd6XxemUOS6QQAXMTQAFqLJBu5ZnMMlCE0kcA3x8Oe+DJ9Ipc6SP9XNS2aBdy6zeQv/3r2wG/OyCFN8KIlehcm8BCsQptdq5axC+Juk0WB0pgkHM3qKeCmCYrMUsvo7sbl6bmOz5AC73OVJBc1cAEVbZoBHlFl8VdCaAY7H5fXww7if5o9ZGPhbgmP2K19nHQWR7RbKmQtzDrQ7snbsCiJiaGsU6RuFEGXs2rCYJGBJwhLUS69uaeHvA4/arskGjYHVEDk/ZsYNoAPBTvzIVupK/AojXaijLsAuB0TIYKYsdaLCthArAbr/pYUMAVAAAgQ8FdELoAs1aCuss8C8jrLEG/yzLYNn77Vie693zCXXaj7BTSJ4FYBeP/5rZesMYVs2bzhdDGr9P8YS+BujOHJ/2Acu4T+sNXOFLqAJXEhPAxDrtJuDzAvYD7ecA7g7iMxB2AbCDT8OuAvA2gDcAvUaYV2TxYkUGf21p5gc1NYp1jMFYASdDOgXAIT7lyI7wKg3HtTby3VBz9CGeyPwSYEOuzxPwR3byxHQz1/uRq5AV3"#;
const SPLASH_2: &'static str = r#"QRQc7GGtHfii7L2aJJHAjgMwMiwc23lTXRPPCNCzrHZSpBHphv5RthB+hJP2CcA5PIWYEv3dwzhxEXXcJ2XmQpdUUwA8XrtCYtJgsaTOAqbLtedrIji+NYm3ht2kL5sWv23FsDQPMo8mREnLmjicq9yFbqCnQDiF+oz6MQZgL4GYmzYeQqXZqdTschvoZ00VXtkYvLiCuUdkWe1NXKxB7UKRlWdziR1Loj3AabSjXwAKLAJoCapQRtWYzKl8wCcALeZKV82Zrj33On8W9hB+lNVr3GUHvSonBXVNGSjubylmR94VDOy4onMNQD/a4svieTFrY28oSAmgMkJ7dhFTAWUgLBz2HmKyIPplDk+7BDZ2PQb7A6Py64G+bMKi5nFulYgXp/5KcTv9fBHFuKxkV4HcEqtdu4st9/tgs6HsE3YeYoP/xB2gmwZg5Fbb2DywEhIV7cTl8UTmd9Ya26bP4NLPB8lBMmkzDMrbUri1F4eYgD9IJITwOSEduyC/X4nVAcw6IUwpYN4OewIWbMY4eMb1u0ANhijhnjCPi3wyrYU5gL0fsoJyJJV9lqw1xd/N+K4SE0AtbUqf7ccDV3Q5QC37/8ZTj5ksTHsDFmjHRTQLavDCN0TT+BxWk1tncG/BDGol+L1ugTSRVk8tCIyN9GqEjphWbn+QuhaAO7FHwBDjAo7Q4R9UUZPVSX0nULqLlSd0Pch/TzLh68L/Qrg5Iu1w+BOe52ks8POUmoEexiAX4edIxuC6ezuZhKoQYR+Hk/g8LXrdHYUm6NsdtIl2mbwBpsSdE4OT3s91CuA6mmaMGijXpDoXvyh4MRxSYX+SyAbVPCv/i3UDN9GbTUXK5L3o6oTOnHwBj0LMJcXPwi8G8oEMG6KKqoTmUYZpQHsFEYGBwCwy/DV+FrYIbJi0BFyghPaN+p3NTUKckt2H8TqOh0Xr7f3CVoEYK+cK0BvBT77V9dpL1AtAg8OemynB9JP4rWaG/mNMsLasCMAq"#;
const SPLASH_3: &'static str = r#"Nowyl4J4NIwBq+p1bYbynEYab8M6asC9srvusi8HugEEK9XpaTZALYLclynT3uyzF4LYFrYQfoiYE3YGQCA5HeqE/pDa4q/z6fOuKTKhq/EWBkcStn9AH4WwGgA26L7rAOReB8AIMQE7NQO7UTAs3uSFF4N7O5mPKGLAF2DYLvaONkSp6abeGPYMXozoUFHG6uHw86xyRsVg/j5luu4IZcnVTZoRFkGp4iaTOB4AMN8ypcVY/h5368Aundx2esB5byP2wkQlapOqL01xdvCjtITY/AWbNgpPrJnx0ZchCw7DVVP00Ey9iJYnQZiaEQ+U2z/YEe84muWmqQGta+0t4M8zc9xHA8R8zNiImrddD3aDuylNR1DuHtf/QUm1Gm/GHWFgEmI3sa7p9Ipc4RvnwKMm6KK9lWa4178BUaYEIOej9fpgigtgEkmaQFEqVXZjhXt6HEbdbxWQ+N1masN9ZyAyYjeix/Y1O3Zlwlg3BRVDB+meQDG+1Hf8d1wUDPjCbVVX6gxYYf5mJ4JO8GWrD696CZep8NZrj+DvASfPrg0MgjzOODDBFBbq/Lh26gFwkle13YCN15deq66Tl8JOwgAQN0/tFFB4MjxdfpoHUt1vWpBPSJg7zBzZYMWDwGeTwDi8nJ7C4Aqb+s6IRojakG8LnN1ba3C/Y1mun9oI8SUEeMAsaou8zNJNwIYHHao/hB4ZV4T3wY8ngDiCftTgZFvL+XkjCAvWVauhybWabewQqQb+QaEV8Mav2f28HjCpkh+N+wk2RK0YPN/ezYBVNXpfIChrJByAvNFSy2J1yu8LkJGbaGN3QOB0wBGehHV1ijTuvm/PZkAJjToaFIpL2o5kTcK0n3xhL4VxuCEuTuMcfsQyQ1CfVgxeBU+WlCV98cT3W279Azcpp4SpBvXjjL1i5PsCnBMxhP6G4A9gxuzeEi6oa0p9lGzkLyuAGpqFOss12y4F3+J4gXDV2t+ZYMCPOCEonhLcOMVFwtz6"#;
const SPLASH_4: &'static str = r#"5b/n9cEsGE0vg9gXD41nAInnFRu9VB1vYI7z9DgZgCdgY1XJAT8cUETn93yawOeAOLTdCShH+Yfyyl0Ag6W9Nj4hAL5/Lv7/EL9Noixiokhr//U1wZSqPpcDYfRbER4pZMTuD1i0CPxhAI55NQYcxUQoe1BUSe8OngF7tn6ywOaAFRhr4O7CeN82mhAD1TX6z/8HmjedL4I5nxUeMkS+JOWFma2/nrOE8CEep0M8jxvYjlFaFtJ9wWxVsBmzOVA6K3Coo9YOmQVZvX0RzlNADV1Gma6lzs6Tl+2gdTm9x6C+TP4OqBPva91PkniRT399gdynADaaZMAdvcilFP0hoiaW5WQrztCO4aY/wUQqd4F0aLZbSne39ufZj0BTJiqAwBe6E0op0QMJnRP9TRN8GuARddwHcRahHBoQAFYgU7T52s26wnAxHQ9gILoIe9EymAZ3R2vV6VfA6SbuEhuKfrWRMvz0s1c3deDspoA4glNBHCCJ7GcUjQY0j0T6nWyXwN8+KH5DoQ/+1W/4EjXts7g/P4e1u8E0H1yjK7yJpVTwiqMNGdig77sR/HFt7Ldil9FRNqHh+z3a0eb72fzwH4ngBGrcDaAffOO5DjAEGs1r6pe4/woPn8GX4flqUABnXrsNWJprJxfy3aDVp+7AWtrVb6sXC8B+Kwn4Ryn24ckv9LayMf8KF6d0OmCZsGnnpcR9royPKZtJt/J9gl9foPeHYSz4F78jveGSVowMaEv+FG8NcXfSpyK0vpk4G8Z8PhcXvxAHxNAMilDqWDaHDkFZ4SF7p0wTYf6UbytiTcBrAXQ4wKYIvNceSePHshZDr1OAE+vxAS49/6Ov7YzRovG18mXg2LTKf5K4ukA2v2oHwnCwi7DY+5p5rKBPL3XCYCUW/TjBGGHGPX7ifU60I/ibU28y4gnAFjhR/0QCdCVFasYXzid/xpokR5vAk5s0P7Wamlvf+44PlgJ8Ph0ii/4Ubxqqv4NMf2OwJf8q"#;
const SPLASH_5: &'static str = r#"B8oYhktz21t4r35lurxCiCTsbVwL34nWKMBPRBP6PN+FG+byXd26eQ4QFeigO8LEJpVJh7oxYu/u95WapIa1L5K7wLY0YsBHCdHK22GJ8yfyaV+DTAxoS8IminAl3sPPnmZYENrir/3suinrgA2rMIEuBe/E57RJqYHqhr0//waYF6KT3QaHgkgUkeN9WI5wAt37uSBXr/4gR4mAFJneT2I4+RoFK0e8LO92MLp7AA+3SMvQt4A+a2KQfxsOsVfNjfTlyaon9jdV32uhkv+7dpynBzsAOj+eJ3i6SY+6tMYUesmlAFxL8SbKlairbcmHl765PbeofgKVHAnnTjFaztQi+IJfT2d4jzvy9uTI3CvuxPAowLvNmW4q/UGBvpx5ScnANmJEfiGOM6WhgC6O16n76SbeJ13ZUVAE72rl7UPATwH6E+SeSgTw0P5fI6fr49e7TU1irWP1koAO4QVxnH6plvXrjPTFt/KvFf2xafpSBj5ehOQwCuA5lmYt0i8HiNeOXhHvJFMMjLtzD+6AmgficPhXvxOpHHK8G10UHWdTmtt4mt5VTL2FPl7tfu2Ojk23WzWb/nFuX6OOAAffwoQcx1/nIJwiKhnqhM6J58iAk/xKlAvnkw3c33/DwvXFvcAdIzHtVcBWAroFci8CeIdS6w0Fv80Mazr6vp4g0ZZDNtkhGHGYgcYjLGyuxmDz8pybxD7AtjO42xOYRsu6NbqhJ3YJdYtaOLyXJ5c3aCxsvp3v8IBAFgYN9PKgE3v/6Uv5l2NWCTL22GxONd9yX2pbNCuMYuDSIyldKiALwAI7jBKJ5IETI5R46rqdOlho3Fztu+tlbGngj6/PoWR/g7gDQJA9TQdJKPn8qizUeDpbSnO8ShXv8YntLsRjiLt0QSPExDIwZROZD0JywvTM/in/h4YT9gXAOzvc57n0ikT+aXGBIB4vc6D9KuBl9H/pFOxH3kVaiDiF+oz6sTJhqoUcBKAbcLM44RCAO6i5"#;
const SPLASH_6: &'static str = r#"X+3zuDLPT2guk57iXrV7yAEXmlNmX38HidfBgAoOzafIjFjbvcmzsClb+Df25p4U2vKnLJ2HUfSsgrSzQD+GXY2JzAEUCOjF+J1md/0tLNQBqcFEUQFcnJ29xVAwj4C4KgB1uhIpzgEYCT7r9XWqnx5DCfJ2DMATgIwNOxMTmAEYD4tZyqDJ0wZ9rZUG4DtAxj7b+mU2SuAcfKy+VOAfN4PrY/qix8ANm2imA9gfmWDRsQyOI3U+QAODzma4z8CqJJRFQwQ8OqbgmhDVjZ5qkZ3QfksACqYvQObllzeBOCmeEKHQLYO5BkooL9DSDIAlqJ7Zdt7AABiOMTPATgIwKAQs0WTsDbsCNngxDp9yVJ59WevGMXBLUkW5GEM8VqNxCBcAKkewE5h54mYByD+qiuG+b2tV6+5WEM6OnGirL4Johql14u/Z8T8dKOpCjtGf8oywJ75fiL64Rpsi+6FPwVn0+GJV4ybomuHDcOUTa3Q9ww7V8gEcVq6iTf298CW67gBQCuA1glTdYAp01UQfDsNuGBI/wg7QjaMIT6Tb5HyrsLfQ7D4Vra3NXLmzp3ch+B5AN4IO1NYSH4vmxf/1ubP5NJ0o6kSOAEl/P0DAMj0+DFk1BhLm/+KulhhrHrKRnMzO1tT/PXOndwHYgJATstMi8DjrY24Op8CbSku6BjCAynN9CpUwTF4KewI2TAUx+RbREX43rm5mZ3pJjZ1DOFepH4MIPIbO7xA6FEvPtVZdA3XtTbFplE8FUBo+93DkhFeDDtDNgzgwW9v4d/yjxJNi67hutbGWLLLcB9As1Hk580J9LQtd2sT77HikQBe97JuxK1dkMLfww6RDUMvFkXI7uZBlkhbOJ3/SKdiZxIcB8CXwysiojJer/O8LDi/iX8ty/CLAJ7xsm6ELY3y2pgtlQnYNu8qHtxILBStKT5cW6uxywbhu5AuB1ARdiaPEdKvquvsOTBsFvC0zWAjhY4ha7B8oI0q58zkyppaH"#;
const SPLASH_7: &'static str = r#"d9epntBHOl16GjR82EnyBbjCbsCwOg86zyZThlfjnqOsni99oX0awD5b6UuDB0AnoJ4z8bBuO2+65jzPotJF2k726kHC+xQjpwIrG9LMRV2jmwYeLMKzt/mChGVbuRLFSt5NMDvIXotpv0wGMBRoH4xaKPejCd0aU2NYrkUmHs93y/r5HgAb/qSMAIo5LO1PlAGW3cGHpgd47Uqmo8Cc9HSwkw6xZ9lum90/TXsPAEaDuiq9tFaGK9VThusuo+yZhWAD3zKFqZMBfBs2CGyZQDkNIP3xg7Gfl7UKVQLmvgsOnkYkE9fhYJ0osrtzbk+KZ3iCwLPQOB7dHz3cksTPww7RLYMPPoHoODLqa6FJN3M9elU7HyJZwFYF3Yej6wDsRTofXMLwdPj9To+18JtKS6gmMwnXPToqbAT5MKzCcDIHuBFnWLQ1sRZAL8AwffOM/7S9R1DOCbdaA7sMhwF8nL0sg6C0rSBjHDIaFwBwJOjriNB5smwI+TCoPtoorwJLNq7ugORTvGF2CAeAWFh2FkGQkBrOhW7eNE1XAd0H6aZbuQVgG7t5fED6iqdTNKWZXgOimXJNdFvT8IoMfCuccHBud4RLnZzr+f7FasYBxTlU2h7Jv6mpy8bY2b38ozR45Ia0A3lOTO5EuS5KPxVluvWjsJfwg6RC4Pus8q8sM3GMb53Wi043Z8SxC4WWI/uxhqFwfR8c9iq11537YuTA//7pRu5UCz4G6hPLk6yK+wQuTCQdxs1MrbYV3gNXPfCEJ6KAtlURGhaMqmtmnuImxqn9OT5fJe/DtlovgPAs/MkgqdHwk6QKwPifa+KkfZLXtUqRukU55E8CfDue+4b4dglq/S7SQ3dJ+iMT2j36oT9DYDxPT88/+WvLc38AOSF+dYJDc1DYUfIlQGw2rNq4n94VqtItTbyMRmOA7Ay7CxZODVj9Vo8YdfFoDcFntnbA0lvfnOnG3k3gcAOmPFQR0U5fD1t2A8GlHetvIjPV"#;
const SPLASH_8: &'static str = r#"U1V0W4N9krbdD4H8lgA74adJUv9rvQjjHeLX8o4DYV3nsPjm9qjFRRDazz9+MWU4Tgv6xWrdCNfyoDHoXAmgT7JetcMtPUGrpD4Pa/qBYL8Q9gRBsLIePsDKNkve1mvmC1I8RWQJ6BAG6p+grH5byvfwmGjcTOEP3tZ01cWi8KOMBDGAh53L+XJgAriaOQoSDfyJWtZiT6W2hYEedsTIpmkJXmplzV9tPrQ0VgSdoiBMLGM59syd6qux6Ee1yxq82dwicDJKOAtxQQP87pma4q/B/Co13W9Rui+bI8mjxrTWYY34fECFWut6wufo7YU7xd5Dgp0d5yAvSc2yPOFYAJ/6nVNr1madNgZBsosnM4OePw2gGS1l/VKRVsj76T43bBzDJSsrfO6ZlsKCwFEucf+xiEbC3czU/edW3r+DT4kXq9SP11nQFqbeK2oxrBzDITA8yZN1R7eVqUENntb00PE4pZmFmxjk+4JQPK8h7mEr3pds1QMWWEuAjE/7BwDUJGJqfnTS4jzU57BHYjoPgqCd4edIR+b/qGM522uDXWa1zVLRUsLMxWWpwOF01tuCycuWWn/x8uCc2ZyJaJ51FhXrAtzww6RDwMAMt5vYZRwaPU07eN13VLR0sQPUcZqACvCzpIz8rJ4vS7zrqAIYIR39bwhYfGmyalgGQBgB5bCh0ss0X7D65qlJH0D/16wHw9KP6lKZP5v0kXaLt9SVXU4A/m3rveeYW+9EQqGAbp72QE+HGZInu31+8FS05bi4yIH1G4rbARPz3TqhaqEetxB2J+apAbFE/oWqZybjgZgQ4Yo6Pf/ALZcv62nfai/21OrcaIPdUtKWyNvKdRPBgDsQmh+PGHnT2jQ0dk8YdJU7RFP6Iftq/UmoBvQfR5BxGjOwuks+ENPP2rhJJo/UTrH6wEMVAvgPq/rlppdNppvLy/T/xOR1YsogsYbq/HxhP2bqIWw5ikCr1thQxkxOAPsRdqxEI/NUGMBRLpBm"#;
const SPLASH_9: &'static str = r#"DHmlrAzeOGjNfvV03SQjPy469zVZbjnwun0eM9B6TmlVjt3DtISCDuHnaXEvX7oKH6uUJf/bumjtwCHjMFS+LMHu6xMttaHuiXnnmYuo3g6gILqO1dsCP6qGF78wBYTQDJJC+FhX0YRLxg3RcV2im4oWlN8WOAPws5Rwjo6DQq9eelHPnGHnuD9Po0zevgw9NpOyslNWwrXAGgLO0dp0m8XTmfh92/Y5BMTQBd9bGogXeI+EvQKVQZOoee9HJz+mV+GncBLn3hBLkjxFQB/82msfZ9ZiUk+1S45c1Jcg+4mnZFcI1+kHkyn+EzYIbzUw29k+bYJRdRlrluQd1pTfJhQ5PfLFwuB14SdwWufngBo5vk43iHV9Yj7WL/k/GuU+TFUWOfRFSICz27qTVBUPjUBrB2JhwGs8WtAWSXdVYB3FifZRfAb8O6IN6cHVrwi35OPouhTE8DiJLsg+bfFkRgbT6DGt/olqLWJr5H8r7BzFLG/HDYa94Qdwg893pUnzZ1+Dkrof2tr1dshk84AtDbipkI9ijzyyB8Vy8KfrfU4AQxeiQdALPNrUAF7Ly/DBX7VL00UDf8TwHthJykyT6Yb4ed9sVD1OAG0tDBD6Q4/Bxb1Iy/2ijsfa23kuxIvCjtHMSH4nWJ8779ZrwtzaMytPo89smujTfo8Rslpa+LtABaEnaMoCHNbU/RneXxE9DoBzJvOFwF/TzslmZgwVQf4OUYpMuJUFPpJQ+HriMV4Sdgh/Nbn0lyCN/o8fpmJaYb7WNBb85r4NuU2DOVD0C/mTqdfq2Ijo88J4F/rcCeA1T5nOKq6Huf7PEbJOWQ0mgA8EXaOAvUGO81Pwg4RhD4ngMW3sh2Q74cySPp51VT9m9/jlJJkklaGF8D1DsiZwPpNfTKLXr+780iTArDR5xzb0ugmn8coOW3T+ZykX4Sdo5AQmtWWYsncRO13Amht5LuAZvmehKisqpN7K+CxIYNNEsKrYecoECtiMBeGH"#;
const SPLASH_10: &'static str = r#"SJI2e3Pp/k5Aji1ltQvxie0t9/jlJKW67jBxngeCvTU4WDxgu5t1qUjqwkg3ciXgEB6oA8ro2ZXNiiCbaAL1/zpfARQUTWy8Jx0czrFol3x15usO/QY8n8RwG8RCYeWWXu13+OUmopB5gfw4/CXYiC8WgFTkisos54A5jXyeUG/8zPMx9hQndDpwYxVGlqu4waS3wDQGXaWiOmw4tdbmliS26lz69EXMz9EQD9Agn41sV4HBjFWqWht5NMgfxx2jiiheMn8GVwSdo6w5DQBtP2SrwIKqiXyNlaaOzmhHQMaryRUrMBVIB4KO0ckSHe2NrFQj1zzRM5LcCdP1eiumF4BsK0PeXqyuGIUT25J0u+1CJ6oSWpQx2ocJGCEDN5u+yVei9pussoG7Vpm9WcAI8POEqIXKsQjS/XSf7MBrcGvrtN/iQqsQSKp21sbzZSovZC2Fq/TSaBuBzBmiy+vAjQfNL9JN+LBqPwdqqdpgozSGODPQIF7j+IRrU18LewgYRvQP35NUoPaV+k5APt6nKd30hXpptjlgY2Xo5pabdterjcB9NXj4GWSv+gkbls4nR0BRetVvD7zU4jfCztHwLoIjm9N8fdhB4mCAR3U0ZLkRmPY4HWYPpGXxesV7Jg52FCGY9D3ix8A9pF0Y7nVa9UJTQu7LVrFCnM5gAfDzBA48tvuxf+xAZ/UM286/wBotpdh+iVdX1WnswMdM0s0GJ3tYwXsKqhpWZleqEposp+5+tLSwkxZhqcDeDusDEEilEo3cnrYOaIkr6O6yjLmYvi/XXhLhtTN8YS+FuCYWSHwrwE86XOE7okn7B8m1Gk/H2L1a85MroR4KoD2MMYPUNvglaW1zj8beU0Ac2ZyJcigv6llgGZFbRLIdOGveTz9BEM9F09krorXaqhnobKUbuJTJIt2IxaJJRXi11ta6I5R20reh3WmGzmbwBwvwuSgDNCs6nqdFfC4vRq6Bn9Ffh15ywFeinItnVCvk73Kl"#;
const SPLASH_11: &'static str = r#"a3WRt4B6qqgxw3AG12WVaX+cV9vPDmtt7O78cQKL2rloEzSbfE61QU8bo+6f7vIi778exrp3ngic8uEadreg3pZO3SkuQwsqgMw1tCyckETl4cdJKo8mQAWTucqgecCCPozbgMqFU/ohwGP2yPJ/Na7apxijJbGE6ryrmbfkklabOQ3ADwZ1Jg+Wm/E6tYZfDnsIFHm6SKQeCJzHRBOX3pRN3040tQtTjK0Fli1tSpfVq6/A9jJy7qCfp0x5uKF05n7jcYB2LTa848A/j2I8XyQkTi5rYnpsINEnSdXAJtVjDKXAnjKy5rZonj+8NWaX1OroJYof0pzMztB71ubETy3zOq56oSO8bp2T+bM5ErFWAlgVRDjeU5MuBd/djxfBjppqvbIxLQEwA5e187SXxXjxO6NS8GrvlBj1KXXAfhxNz8D6uqdN5ofNjfT912Z8TodDup+AMP9HsszEV8xGjWeXgEAwNyZfNOSZwAI6yOX/ZjRk0G+d95S6w1cAWiGT+VjEL+3rFx/DKJ1WrqJTwmcDCD0ZcvZ0ex0k/nvsFMUEs8nAACY38j7BH7fj9pZ2g5QazyRuWJcUmVBD75xkLkSgJ+95Q6LQUuqEzrHxzEAAG0p3g/wNES/kcgTa9eZ86Ky2apQ+DIBAEBbilcDus2v+lkgwB8MX6X7Kxu0a/a6SssAAAfsSURBVJAD33cd/wn4vslmmKBb44nMrMoGjfBzoHSK8wiejfCu6rKx/7ChODXsEIXG162gNUkNal+tRRCO9XOcLPxT4gVtTbwruCHFeEL3ATjR/6HwKsjT0yk+4+cwVXU6m9Qt8PEXR74I3Cewce06/KH7YBunL77vBZ8wTdsbo0cB7O/3WP2S7rAy35o/g/ms2MvaphuCrwDw9Tf0Jh0Qv51uYpOfg1QndI6gmwHE/BzHA2sFzTc0/zd4JO4tlIYyQQukGUT8Qn2GXXpMQKCX4j0ilklMtKUYyPLlqkTmZnYvkgqGdCfbz"#;
const SPLASH_12: &'static str = r#"fmtv6ZvpwNX1elMUrch+pPAZmsk3UGam9IpvhB2mCgJrBvMhDrtZ6iHEZU2VMJcA35rXhN93Qobr9dlkAI9aJLAKyS/Oq+Rz/s1RnW9aiTNAhBqT4MBeBTkjIqRuMtdFQTcDiqe0CGA7kf/jTOCsg7iT7piuM6vDj3xROZGgLV+1O7HeoJ1rSn6diO2KqHxhO4CMMSvMXy0nNSNXdbMLOW9AoH3g6tq0BG0WoTgmopm4zWSPx48Er/z8rfCyRdrh0Eb9SrCWxQFQM1r15kL/bohNqFBRxurVkRnUs/VRkD/l5G5fkETnw07TNBCaQi5aRK4D9H7oVkB6FYrc9v8Juazvx+VDRoRy+huEl/2Klwens6AX12Q4lt+FK+epoNktBDALn7UD9D9IK9NN+LeUllPEFpH2OoGjVX3JDAqrAz9+AuoeciYBWvH4OlsNxmNm6KKEcNwtqQfIVoviNUQz0w3cZEfxccntHuMaoNwgB/1A0UsheW1FaMxu9jvE4TaEjper30hLQKwW5g5srAWwFOQngHNyxT+kRFWyWAthKHlMYy0GexN2i8JHA8g0H38ObCArtq50yT92EtQ2aARZVazAISyDNtrBP5hwevYiZnpZq4PO48fQu8JP7FOu1lqIYDPh52lVBB4luDUeSk+4XXtZFJmyWqbhHg5IvDz5ZHnKsSjirGrUCT+gSZdpO0ynboHwHFhZykhIjQbMkk/Dsjo3oyl2xDqDVAPkZenG3lF2DG8FoklnXOv5/sVo/gVQLeEnaWEUOCZol6K12V+W12v//CyeDrFNpRxLIDHvKwbGikedgQ/ROIKYEtVCX2b0M9ROKvMismLIGcbYs686XzRi4LjkiobttJeRvJyAIHvzPTQW+mU2SPsEF6L3AQAABPqdbKR7kS01gqUmjcA3U+YRwU8XbESL+XTVnvTR7+3IAp7Qgbm6XTKHB52CK9FcgIAgIkN2t9azQOwV9hZHABAO4GXALwm6m1a8w6I1"#;
const SPLASH_13: &'static str = r#"SDeI7FewoZMpvtwkRgxgjHEMhlsZ4gRIEYKdidY7gliIiL8c9c7XZlOxS4LO4XXIv0PMWGatjfULBCVYWdxStoH5Z3c755mLgs7iNcicROwN/Nn8L1DR7NKUhLRbkbh5IjAswAnofutXpQX23QBPKcYX/xAxK8AthSv1/GA7oCwc9hZnPwQuKt9CKcsuobrAKCyQaPKhTMkfR3AEYjOz+XfQX4z3cgHwg7il6h8o7NS2aBRZVY3AyjKj2RKQAbi5ekm/Ky3tfaVDdo1JlRR+gqAYxH8fpFOAI9DnF0xGLe3XMcNAY8fqIKaADarqtP5pK5BMJ12HG8sp3hGaxMfzPYJNTWKbdgJByCDI0g7FuDnAewDYIxHmd4D8KqgpYbmL7JYgi48U6zLfntSkBMA8NHmk2YIJ4WdxekbgftQxnO6W6bnL16roZly7BoTRgvYHgZDDbCtgBGydhty6/4E5l8k1kF43wKrjMU/MsDbQbWGi7KCnQC6idUJnC3oGkSl05CzpXaIP0g34fpS2V5baAp8Aug2OaEdu2CvBPifiPgnGyXkSWP4Ta9WFDr+KIoJYLMJ03SoMboBgKfr2p2crKf4w8GrcH0+KwedYBTVBNBNjNfjFEhXoPuGkRMQAa1lGV44dybfDDuLk50inAC6jUuqbPgqTAH03wA+E3aeIvcyyIvTjVwYdhAnN0U7AWxWk9Sg9pX4JqhLAewZdp4is1zgT3bpRHMQpxU73iv6CWCz7m2pOM1Qlwg4OOw8BW4VyWvaK5DavJrPKUwlMwFsqbpOx4FqEFAN13cgF28B/EXHENzsXvjFoSQngM0qG7Rruex/Svwm3H2CXlF4RGTj2lG4J9vuyE5hKOkJYLNkUubPa3C8tfYsgJPhlhgDwHJAs4wxv3af5RcvNwFsZdwUVQzbBpWUPQXkBES3xbcf1giaR5k7K1bhfvc5fvFzE0AfxiVVNmIljhbseJAnAzgAxfU9E4HnBN0HaxauHYPH3"#;
const SPLASH_14: &'static str = r#"CV+aSmmH2bfVV+oMejCcYI9BuBR6O5vV0g3EdcLeNZAf7Iwj5YDD89JcU3YoZzwuAkgD9XnargdikONxaGCPRjkgQD2BTA45GjtAN6A8DKMXpI1S2Xx3Lqd8JL7De9syU0AHqupUaxjFPZEdzPTvQS7O4hdAO4KYDS6z0LcAbl/79cDeB/de9jfA7AG0moAy2HMCgDvIoN3yjN4q1jbVznecxNASGpqte0Gg2EiBkMYCn7qquG9csF2Eh+sG4O17je34ziO4ziO4ziO4ziO4ziO4ziO4ziO4ziO4ziO4ziO4ziO4ziO4ziO4ziO4ziO4ziO4ziO4ziO4ziO4ziO4ziO4ziO4ziO4ziO4ziO4ziO4ziO4ziO4ziO4ziO4ziO4ziO4zhOwP4/0/0sOjvz3vUAAAAASUVORK5CYII="); background-size: contain; background-repeat: no-repeat; background-position: center; }
  .sub { margin-bottom: 22px; color: #8b8b8b; font-size: 12px; }
  #spinner { width: 22px; height: 22px; margin: 0 auto 16px; border: 3px solid #303030; border-top-color: #4d6bfe; border-radius: 50%; animation: spin .8s linear infinite; }
  #status { min-height: 20px; margin-bottom: 12px; font-size: 13px; }
  .hidden { display: none !important; }
  .actions { display: flex; justify-content: center; gap: 8px; margin-top: 14px; }
  button { padding: 6px 18px; border: 1px solid #36363"#;
const SPLASH_15: &'static str = r#"6; border-radius: 5px; background: #191919; color: #fff; cursor: pointer; font: 12px "Segoe UI", system-ui, sans-serif; }
  button:hover { background: #292929; }
  button:disabled { opacity: .45; cursor: not-allowed; }
  @keyframes spin { to { transform: rotate(360deg); } }
  @keyframes rowIn { from { opacity: 0; transform: translateY(8px); } to { opacity: 1; transform: translateY(0); } }
  @keyframes checkingPulse { 0%,100% { opacity: .35; } 50% { opacity: 1; } }

  /* 环境检查面板 */
  #env-panel { display: none; width: 420px; max-width: 92vw; margin: 0 auto; text-align: left; background: #121212; border: 1px solid #2a2a2a; border-radius: 8px; padding: 14px 16px; }
  #env-panel h2 { margin: 0 0 12px; font-size: 14px; color: #ddd; }
  .env-row { padding: 8px 10px; border-radius: 6px; margin-bottom: 8px; background: #1a1a1a; animation: rowIn .3s ease both; }
  .env-row.bad { border: 1px solid #7a3030; }
  .env-row.ok { border: 1px solid #2a4a2a; }
  .env-row.checking { border: 1px dashed #4d"#;
const SPLASH_16: &'static str = r#"6bfe; animation: none; }
  .env-row.checking .env-name { animation: checkingPulse 1.2s ease-in-out infinite; color: #4d6bfe; }
  .env-name { font-weight: 600; color: #eee; font-size: 13px; }
  .env-status { float: right; font-size: 12px; }
  .env-row.ok .env-status { color: #4caf50; }
  .env-row.bad .env-status { color: #e57373; }
  .env-row.checking .env-status { color: #4d6bfe; }
  .env-hint { margin-top: 6px; color: #999; font-size: 11px; line-height: 1.5; word-break: break-all; }
  .env-btn { margin-top: 8px; padding: 3px 12px; border: 1px solid #4d6bfe; border-radius: 4px; background: #2a3560; color: #fff; cursor: pointer; font: 11px "Segoe UI", system-ui, sans-serif; }
  .env-btn:hover { background: #3a4a80; }
  .env-btn:disabled { opacity: .5; cursor: wait; }
</style>
</head>
<body>
<div id="splash">
<main>
  <h1><span class="title-icon"></span>DeepSeek Harness Desktop</h1>

  <div id="spinner"></div>
  <div id="status">正在初始化...</div>
</main>

<!-- 环境检查面板：独立于 360px 的 main，居中显示 -"#;
const SPLASH_17: &'static str = r#"->
<div id="env-panel">
  <h2>运行环境检查</h2>
  <div id="env-list"></div>
</div>
<div class="actions" id="env-actions">
  <button id="retry" class="hidden" onclick="window.ipc.postMessage('retry')">重试</button>
  <button id="exit" class="hidden" onclick="window.ipc.postMessage('exit')">退出</button>
</div>
</div>
<script>
  function setStatus(text) { document.getElementById('status').textContent = text; }
  function showFail(message) { setStatus(message); document.getElementById('spinner').classList.add('hidden'); document.getElementById('retry').classList.remove('hidden'); document.getElementById('exit').classList.remove('hidden'); }
  function showDone() { document.getElementById('spinner').classList.add('hidden'); }
  function reset() { setStatus('正在初始化...'); document.getElementById('spinner').classList.remove('hidden'); document.getElementById('retry').classList.add('hidden'); document.getElementById('exit').classList.add('hidden'); document.getElementById('env-panel').style.display = 'no"#;
const SPLASH_18: &'static str = r#"ne'; document.getElementById('env-list').innerHTML = ''; }

  function showEnvProgress(name) {
    var panel = document.getElementById('env-panel');
    var list = document.getElementById('env-list');
    panel.style.display = 'block';
    // 清除前一行 checking 状态
    Array.prototype.forEach.call(list.querySelectorAll('.checking'), function (r) {
      r.parentNode.removeChild(r);
    });
    var row = document.createElement('div');
    row.className = 'env-row checking';
    var nameSpan = document.createElement('span');
    nameSpan.className = 'env-name';
    nameSpan.textContent = name;
    var status = document.createElement('span');
    status.className = 'env-status';
    status.textContent = '正在检查...';
    row.appendChild(nameSpan);
    row.appendChild(status);
    list.appendChild(row);
  }

  function showEnvCheck(results) {
    var panel = document.getElementById('env-panel');
    var list = document.getElementById('env-list');
    list.innerHTML = '';
    var allOk = true;
    "#;
const SPLASH_19: &'static str = r#"results.forEach(function (r, i) {
      var row = document.createElement('div');
      row.className = 'env-row ' + (r.ok ? 'ok' : 'bad');
      row.style.animationDelay = (i * 120) + 'ms';
      var name = document.createElement('span');
      name.className = 'env-name';
      name.textContent = r.name;
      var status = document.createElement('span');
      status.className = 'env-status';
      status.textContent = r.ok ? ('✓ ' + (r.version || '已安装')) : '✗ ' + (r.error || '未安装');
      row.appendChild(name);
      row.appendChild(status);
      if (!r.ok) {
        allOk = false;
        var hint = document.createElement('div');
        hint.className = 'env-hint';
        hint.textContent = '安装方式: ' + r.install_hint;
        row.appendChild(hint);
        var btn = document.createElement('button');
        btn.className = 'env-btn';
        btn.textContent = '自动安装';
        btn.id = 'install-' + r.install_cmd;
        btn.onclick = function () {
          btn.disabled = true;
   "#;
const SPLASH_20: &'static str = r#"       btn.textContent = '正在安装...';
          window.ipc.postMessage(r.install_cmd);
        };
        row.appendChild(btn);
      }
      list.appendChild(row);
    });
    panel.style.display = 'block';
    if (allOk) {
      // 全部通过：面板保持显示，不再单独等待转圈，直接进入插件加载
      document.getElementById('spinner').classList.add('hidden');
      setStatus('环境检查通过，正在启动服务...');
    } else {
      document.getElementById('spinner').classList.add('hidden');
      document.getElementById('retry').classList.remove('hidden');
      document.getElementById('exit').classList.remove('hidden');
    }
  }
</script>
</body>
</html>"#;

/// The splash page: start-up status, spinner and the environment check panel.
pub closed spec fn splash_html() -> Seq<char> {
    SPLASH_0@ + SPLASH_1@ + SPLASH_2@ + SPLASH_3@ + SPLASH_4@ + SPLASH_5@ + SPLASH_6@ + SPLASH_7@ + SPLASH_8@ + SPLASH_9@ + SPLASH_10@ + SPLASH_11@ + SPLASH_12@ + SPLASH_13@ + SPLASH_14@ + SPLASH_15@ + SPLASH_16@ + SPLASH_17@ + SPLASH_18@ + SPLASH_19@ + SPLASH_20@
}

const NAVBAR_0: &'static str = r#"(function(){
  if (document.getElementById('dsh-navbar-host')) return;
  var host = document.createElement('div');
  host.id = 'dsh-navbar-host';
  // 内联 !important 定位，防止插件主题 CSS 覆盖
  host.style.setProperty('position', 'fixed', 'important');
  host.style.setProperty('top', '0px', 'important');
  host.style.setProperty('left', '0px', 'important');
  host.style.setProperty('right', '0px', 'important');
  host.style.setProperty('bottom', 'auto', 'important');
  host.style.setProperty('height', '20px', 'important');
  host.style.setProperty('background', 'transparent', 'important');
  host.style.setProperty('z-index', '2147483647', 'important');
  host.style.setProperty('pointer-events', 'none', 'important');
  host.style.setProperty('transform', 'none', 'important');

  // Shadow DOM：内部样式与页面完全隔离，插件 CSS 无法穿透
  var root = host.attachShadow({ mode: 'open' });
  root.innerHTML = '<style>'
    + ':host{all:initial;display:block!important;width:100%!important;height:20px!important;font-family:""#;
const NAVBAR_1: &'static str = r#"Segoe UI",system-ui,sans-serif!important;}'
    + '.bar{display:flex!important;flex-direction:row!important;align-items:center!important;justify-content:flex-start!important;height:20px!important;width:100%!important;padding:0 6px!important;gap:3px!important;box-sizing:border-box!important;}'
    + '.n-btn{width:18px;height:16px;max-width:18px;max-height:16px;min-width:18px;min-height:16px;border:none;border-radius:3px;background:transparent;cursor:pointer;display:flex;align-items:center;justify-content:center;position:relative;padding:0;margin:0;pointer-events:auto;box-shadow:none;outline:none;font-size:0;box-sizing:border-box;color:#888;}'
    + '.n-btn:hover{background:#333;}'
    + '.n-btn.active{background:#4d6bfe;}'
    + '.n-btn svg{width:12px;height:12px;max-width:12px;max-height:12px;min-width:12px;min-height:12px;fill:none;stroke:#888;stroke-width:2;stroke-linecap:round;stroke-linejoin:round;display:block;margin:0;padding:0;flex:none;box-sizing:content-box;}'
    + '.n-btn:ho"#;
const NAVBAR_2: &'static str = r#"ver svg{stroke:#fff;}'
    + '.n-btn.active svg{stroke:#fff;}'
    + '.n-tip{position:absolute;top:100%;left:50%;transform:translateX(-50%);margin-top:2px;padding:2px 6px;background:#333;color:#fff;font-size:10px;line-height:1.2;border-radius:3px;white-space:nowrap;pointer-events:none;opacity:0;transition:opacity .15s;z-index:999999;font-family:"Segoe UI",system-ui,sans-serif;}'
    + '.n-btn:hover .n-tip{opacity:1;}'
    + '.n-spacer{flex:1 1 auto;}'
    + '.n-dot{position:absolute;top:1px;right:1px;width:6px;height:6px;border-radius:50%;background:#ff4444;display:none;}'
    + '.n-dot.show{display:block;}'
    + '.n-prompt{position:fixed;bottom:60px;left:50%;transform:translateX(-50%);background:#2a2a2a;border:1px solid #555;border-radius:6px;padding:8px 16px;font-size:12px;color:#eee;display:none;z-index:2147483647;font-family:"Segoe UI",system-ui,sans-serif;white-space:nowrap;pointer-events:auto;cursor:pointer;}'
    + '.n-prompt.show{display:flex;align-items:center;gap:8px;}'
    "#;
const NAVBAR_3: &'static str = r#"+ '.n-prompt:hover{background:#3a3a3a;}'
    + '</style>'
    + '<div class="bar">'
    + '<button class="n-btn">'
      + '<svg viewBox="0 0 24 24"><path d="M12 2l3.09 6.26L22 9.27l-5 4.87 1.18 6.88L12 17.77l-6.18 3.25L7 14.14 2 9.27l6.91-1.01L12 2z"/></svg>'
      + '<span class="n-tip">设置</span>'
    + '</button>'
    + '<button class="n-btn" data-cmd="refresh">'
      + '<svg viewBox="0 0 24 24"><polyline points="23 4 23 10 17 10"/><polyline points="1 20 1 14 7 14"/><path d="M3.51 9a9 9 0 0 1 14.85-3.36L23 10M1 14l4.64 4.36A9 9 0 0 0 20.49 15"/></svg>'
      + '<span class="n-tip">刷新页面</span>'
    + '</button>'
    + '<button class="n-btn" data-cmd="restart">'
      + '<span class="n-dot" id="dsh-update-dot"></span>'
      + '<svg viewBox="0 0 24 24"><path d="M18.36 6.64a9 9 0 1 1-12.73 0"/><line x1="12" y1="2" x2="12" y2="12"/></svg>'
      + '<span class="n-tip">重启服务</span>'
    + '</button>'
    + '<button class="n-btn" id="dsh-btn-exit" data-cmd="toggle-exit-mode">'
      + '<s"#;
const NAVBAR_4: &'static str = r#"vg viewBox="0 0 24 24"><path d="M9 21H5a2 2 0 0 1-2-2V5a2 2 0 0 1 2-2h4"/><polyline points="16 17 21 12 16 7"/><line x1="21" y1="12" x2="9" y2="12"/></svg>'
      + '<span class="n-tip">关闭时退出</span>'
    + '</button>'
    + '<button class="n-btn" id="dsh-btn-tray" data-cmd="toggle-tray">'
      + '<svg viewBox="0 0 24 24"><rect x="4" y="2" width="16" height="20" rx="2"/><line x1="9" y1="6" x2="15" y2="6"/></svg>'
      + '<span class="n-tip">常驻任务栏</span>'
    + '</button>'
    + '<span class="n-spacer"></span>'
    + '</div>'
    + '<div class="n-prompt" id="dsh-update-prompt">已更新，<span style="color:#4d6bfe;text-decoration:underline;">点击重启</span></div>';

  // 更新红点提示函数
  window.showUpdateDot = function() {
    var dot = root.getElementById('dsh-update-dot');
    if (dot) dot.classList.add('show');
    var prompt = root.getElementById('dsh-update-prompt');
    if (prompt) prompt.classList.add('show');
  };

  // 更新提示点击重启
  root.getElementById('dsh-update-prompt').addEventListener('click"#;
const NAVBAR_5: &'static str = r#"', function() {
    if (window.ipc && window.ipc.postMessage) { window.ipc.postMessage('restart'); }
  });

  // 点击事件：Shadow DOM 内的按钮通过 data-cmd 通知宿主 IPC
  root.querySelector('.bar').addEventListener('click', function(e){
    var btn = e.target.closest ? e.target.closest('.n-btn') : null;
    if (btn && btn.dataset && btn.dataset.cmd) {
      var msg = btn.dataset.cmd;
      if (window.ipc && window.ipc.postMessage) { window.ipc.postMessage(msg); }
      else if (window.parent && window.parent.ipc && window.parent.ipc.postMessage) { window.parent.ipc.postMessage(msg); }
    }
  });

  // 挂到 html 根元素（比 body 更不容易被插件容器包裹/加 transform）
  (document.documentElement || document.body).appendChild(host);

  // 兜底自检：防止插件把导航栏挪走或样式覆盖
  var assert = function(){
    var h = document.getElementById('dsh-navbar-host');
    if (!h) { return; }
    if (h.parentNode !== document.documentElement && h.parentNode !== document.body) {
      (document.documentElement || document.body).appendChild(h);
    }
   "#;
const NAVBAR_6: &'static str = r#" h.style.setProperty('position', 'fixed', 'important');
    h.style.setProperty('top', '0px', 'important');
    h.style.setProperty('left', '0px', 'important');
    h.style.setProperty('right', '0px', 'important');
    h.style.setProperty('bottom', 'auto', 'important');
    h.style.setProperty('height', '20px', 'important');
    h.style.setProperty('z-index', '2147483647', 'important');
    h.style.setProperty('transform', 'none', 'important');
    try {
      var r = h.getBoundingClientRect();
      if (Math.abs(r.top) > 1 || Math.abs(r.bottom - window.innerHeight) < 30) {
        h.style.setProperty('top', '0px', 'important');
        h.style.setProperty('bottom', 'auto', 'important');
      }
    } catch(e) {}
  };
  var iv = setInterval(assert, 1000);
  window.setTimeout(function(){ clearInterval(iv); }, 180000);
  assert();
})();"#;

/// Injects the navigation bar (in a shadow root, out of reach of page
/// styles) into the dsh page, once per page load.
pub closed spec fn navbar_script() -> Seq<char> {
    NAVBAR_0@ + NAVBAR_1@ + NAVBAR_2@ + NAVBAR_3@ + NAVBAR_4@ + NAVBAR_5@ + NAVBAR_6@
}


pub fn build_splash_html() -> (r: String)
    ensures
        r@ == splash_html(),
{
    let mut r = String::new();
    r.append(SPLASH_0);
    r.append(SPLASH_1);
    r.append(SPLASH_2);
    r.append(SPLASH_3);
    r.append(SPLASH_4);
    r.append(SPLASH_5);
    r.append(SPLASH_6);
    r.append(SPLASH_7);
    r.append(SPLASH_8);
    r.append(SPLASH_9);
    r.append(SPLASH_10);
    r.append(SPLASH_11);
    r.append(SPLASH_12);
    r.append(SPLASH_13);
    r.append(SPLASH_14);
    r.append(SPLASH_15);
    r.append(SPLASH_16);
    r.append(SPLASH_17);
    r.append(SPLASH_18);
    r.append(SPLASH_19);
    r.append(SPLASH_20);
    r
}


pub fn inject_navbar_script() -> (r: String)
    ensures
        r@ == navbar_script(),
{
    let mut r = String::new();
    r.append(NAVBAR_0);
    r.append(NAVBAR_1);
    r.append(NAVBAR_2);
    r.append(NAVBAR_3);
    r.append(NAVBAR_4);
    r.append(NAVBAR_5);
    r.append(NAVBAR_6);
    r
}

pub const NAV_BUTTON_PREFIX: &'static str = "(function(){var h=document.getElementById('dsh-navbar-host');var r=h?h.shadowRoot:null;var b=r?r.getElementById('dsh-btn-";

pub const NAV_BUTTON_CLASS: &'static str = "'):null;if(b){b.className='n-btn";

pub const NAV_BUTTON_TIP: &'static str = "'};\n        var t=b?b.querySelector('.n-tip'):null;if(t)t.textContent='";

pub const NAV_BUTTON_END: &'static str = "';})();";

/// The script that marks navigation button `button` (`exit` or `tray`)
/// active or not and sets its tooltip.
pub open spec fn nav_button_script(button: Seq<char>, enabled: bool, tip: Seq<char>) -> Seq<char> {
    NAV_BUTTON_PREFIX@ + button + NAV_BUTTON_CLASS@ + (if enabled {
        " active"@
    } else {
        ""@
    }) + NAV_BUTTON_TIP@ + tip + NAV_BUTTON_END@
}

fn nav_button(button: &str, enabled: bool, tip: &str) -> (r: String)
    ensures
        r@ == nav_button_script(button@, enabled, tip@),
{
    let mut r = String::from_str(NAV_BUTTON_PREFIX);
    r.append(button);
    r.append(NAV_BUTTON_CLASS);
    if enabled {
        r.append(" active");
    }
    proof {
        reveal_strlit("");
    }
    r.append(NAV_BUTTON_TIP);
    r.append(tip);
    r.append(NAV_BUTTON_END);
    r
}

pub const EXIT_TIP_ON: &'static str = "关闭时退出 ✓";

pub const EXIT_TIP_OFF: &'static str = "关闭时隐藏";

pub const TRAY_TIP_ON: &'static str = "常驻任务栏 ✓";

pub const TRAY_TIP_OFF: &'static str = "不驻任务栏";

/// Shows whether closing the window exits the launcher.
pub fn nav_set_exit_mode(enabled: bool) -> (r: String)
    ensures
        r@ == nav_button_script(
            "exit"@,
            enabled,
            if enabled {
                EXIT_TIP_ON@
            } else {
                EXIT_TIP_OFF@
            },
        ),
{
    nav_button(
        "exit",
        enabled,
        if enabled {
            EXIT_TIP_ON
        } else {
            EXIT_TIP_OFF
        },
    )
}

/// Shows whether the launcher stays in the tray.
pub fn nav_set_tray_mode(enabled: bool) -> (r: String)
    ensures
        r@ == nav_button_script(
            "tray"@,
            enabled,
            if enabled {
                TRAY_TIP_ON@
            } else {
                TRAY_TIP_OFF@
            },
        ),
{
    nav_button(
        "tray",
        enabled,
        if enabled {
            TRAY_TIP_ON
        } else {
            TRAY_TIP_OFF
        },
    )
}


/// A lower-case hexadecimal digit.
pub open spec fn hex_digit(d: nat) -> char {
    if d < 10 {
        (('0' as u32) + d) as char
    } else {
        (('a' as u32) + d - 10) as char
    }
}

/// How `js_str` writes one character: `"`, `\`, newline, carriage return and
/// tab as two-character escapes, other characters below U+0020 as `\u00XX`,
/// everything else unchanged.
pub open spec fn js_escape_char(c: char) -> Seq<char> {
    if c == '"' {
        seq!['\\', '"']
    } else if c == '\\' {
        seq!['\\', '\\']
    } else if c == '\n' {
        seq!['\\', 'n']
    } else if c == '\r' {
        seq!['\\', 'r']
    } else if c == '\t' {
        seq!['\\', 't']
    } else if (c as u32) < 0x20 {
        seq![
            '\\',
            'u',
            '0',
            '0',
            hex_digit(((c as u32) / 16) as nat),
            hex_digit(((c as u32) % 16) as nat),
        ]
    } else {
        seq![c]
    }
}

/// The escaped body of a JavaScript string literal for `s`.
pub open spec fn js_escape(s: Seq<char>) -> Seq<char>
    decreases s.len(),
{
    if s.len() == 0 {
        seq![]
    } else {
        js_escape_char(s[0]) + js_escape(s.drop_first())
    }
}

/// The JavaScript string literal for `s`.
pub open spec fn js_literal(s: Seq<char>) -> Seq<char> {
    seq!['"'] + js_escape(s) + seq!['"']
}

proof fn lemma_js_escape_push(s: Seq<char>, c: char)
    ensures
        js_escape(s.push(c)) == js_escape(s) + js_escape_char(c),
    decreases s.len(),
{
    if s.len() == 0 {
        assert(s.push(c).drop_first() =~= Seq::<char>::empty());
        assert(js_escape(s.push(c)) == js_escape_char(c) + js_escape(Seq::<char>::empty()));
    } else {
        lemma_js_escape_push(s.drop_first(), c);
        assert(s.push(c).drop_first() =~= s.drop_first().push(c));
        assert(s.push(c)[0] == s[0]);
    }
}

fn hex_digit_char(d: u32) -> (c: char)
    requires
        d < 16,
    ensures
        c == hex_digit(d as nat),
{
    if d < 10 {
        let b: u8 = (d as u8) + 48;
        b as char
    } else {
        let b: u8 = (d as u8) + 87;
        b as char
    }
}

fn push_js_escape(out: &mut String, c: char)
    ensures
        final(out)@ == old(out)@ + js_escape_char(c),
{
    let ghost before = out@;
    if c == '"' {
        out.push('\\');
        out.push('"');
    } else if c == '\\' {
        out.push('\\');
        out.push('\\');
    } else if c == '\n' {
        out.push('\\');
        out.push('n');
    } else if c == '\r' {
        out.push('\\');
        out.push('r');
    } else if c == '\t' {
        out.push('\\');
        out.push('t');
    } else if (c as u32) < 0x20 {
        let v = c as u32;
        out.push('\\');
        out.push('u');
        out.push('0');
        out.push('0');
        out.push(hex_digit_char(v / 16));
        out.push(hex_digit_char(v % 16));
    } else {
        out.push(c);
    }
    assert(out@ =~= before + js_escape_char(c));
}

/// `s` as a double-quoted JavaScript string literal.
pub fn js_str(s: &str) -> (r: String)
    ensures
        r@ == js_literal(s@),
{
    let v = crate::text::chars_of(s);
    let mut out = String::new();
    out.push('"');
    let mut i: usize = 0;
    while i < v.len()
        invariant
            i <= v.len(),
            v@ == s@,
            out@ == seq!['"'] + js_escape(v@.take(i as int)),
        decreases v.len() - i,
    {
        proof {
            lemma_js_escape_push(v@.take(i as int), v@[i as int]);
            assert(v@.take(i + 1 as int) =~= v@.take(i as int).push(v@[i as int]));
        }
        push_js_escape(&mut out, v[i]);
        i = i + 1;
    }
    assert(v@.take(v.len() as int) =~= v@);
    out.push('"');
    out
}


/// One environment check result as a JavaScript object literal.
pub open spec fn env_item_js(r: EnvCheckResult) -> Seq<char> {
    "{ok:"@ + (if r.ok {
        "true"@
    } else {
        "false"@
    }) + ",name:"@ + js_literal(r.name@) + ",version:"@ + js_literal(
        match version_view(r) {
            Some(v) => v,
            None => Seq::<char>::empty(),
        },
    ) + ",error:"@ + js_literal(r.error@) + ",install_hint:"@ + js_literal(r.install_hint@)
        + ",install_cmd:"@ + js_literal(r.install_cmd@) + "}"@
}

/// `items` joined with `,` between them.
pub open spec fn join_commas(items: Seq<Seq<char>>) -> Seq<char>
    decreases items.len(),
{
    if items.len() == 0 {
        Seq::<char>::empty()
    } else if items.len() == 1 {
        items[0]
    } else {
        join_commas(items.drop_last()) + ","@ + items.last()
    }
}

/// The splash-page script that shows a bootstrap message.
pub open spec fn ui_msg_script(n: Notice) -> Seq<char> {
    match n {
        Notice::Step(t) => "setStatus("@ + debug_str(t) + ");"@,
        Notice::EnvProgress(t) => "showEnvProgress("@ + debug_str(t) + ");"@,
        Notice::EnvCheck(rs) => "showEnvCheck(["@ + join_commas(
            rs.map_values(|r: EnvCheckResult| env_item_js(r)),
        ) + "]);"@,
        Notice::Fail(t) => "showFail("@ + debug_str(t) + ");"@,
        Notice::Done => "showDone();"@,
    }
}

fn push_env_item(out: &mut String, r: &EnvCheckResult)
    ensures
        final(out)@ == old(out)@ + env_item_js(*r),
{
    let ghost before = out@;
    out.append("{ok:");
    if r.ok {
        out.append("true");
    } else {
        out.append("false");
    }
    out.append(",name:");
    out.append(js_str(r.name).as_str());
    out.append(",version:");
    let version = match &r.version {
        Some(v) => js_str(v.as_str()),
        None => js_str(""),
    };
    proof {
        reveal_strlit("");
    }
    out.append(version.as_str());
    out.append(",error:");
    out.append(js_str(r.error.as_str()).as_str());
    out.append(",install_hint:");
    out.append(js_str(r.install_hint).as_str());
    out.append(",install_cmd:");
    out.append(js_str(r.install_cmd).as_str());
    out.append("}");
    assert(out@ =~= before + env_item_js(*r));
}

/// The splash-page script that shows `message`.
pub fn ui_msg_js<P>(message: &UiMsg<P>) -> (r: String)
    ensures
        r@ == ui_msg_script(notice(*message)),
{
    match message {
        UiMsg::Step(text) => {
            let mut r = String::from_str("setStatus(");
            r.append(debug_quoted(text.as_str()).as_str());
            r.append(");");
            r
        },
        UiMsg::EnvProgress(name) => {
            let mut r = String::from_str("showEnvProgress(");
            r.append(debug_quoted(name).as_str());
            r.append(");");
            r
        },
        UiMsg::EnvCheck(results) => {
            let ghost items = results@.map_values(|r: EnvCheckResult| env_item_js(r));
            let mut r = String::from_str("showEnvCheck([");
            let ghost start = r@;
            let mut i: usize = 0;
            while i < results.len()
                invariant
                    i <= results.len(),
                    items == results@.map_values(|r: EnvCheckResult| env_item_js(r)),
                    r@ == start + join_commas(items.take(i as int)),
                decreases results.len() - i,
            {
                let ghost t = items.take(i + 1 as int);
                assert(t.drop_last() =~= items.take(i as int));
                assert(t.last() == env_item_js(results@[i as int]));
                if i > 0 {
                    r.append(",");
                } else {
                    assert(t =~= seq![env_item_js(results@[0])]);
                    assert(items.take(0) =~= Seq::<Seq<char>>::empty());
                }
                push_env_item(&mut r, &results[i]);
                i = i + 1;
            }
            assert(items.take(results.len() as int) =~= items);
            r.append("]);");
            r
        },
        UiMsg::Fail(error) => {
            let mut r = String::from_str("showFail(");
            r.append(debug_quoted(error.as_str()).as_str());
            r.append(");");
            r
        },
        UiMsg::Done(_) => String::from_str("showDone();"),
    }
}


/// The value of a hexadecimal digit.
pub open spec fn hex_value(c: char) -> Option<nat> {
    if '0' <= c && c <= '9' {
        Some(((c as u32) - ('0' as u32)) as nat)
    } else if 'a' <= c && c <= 'f' {
        Some(((c as u32) - ('a' as u32) + 10) as nat)
    } else if 'A' <= c && c <= 'F' {
        Some(((c as u32) - ('A' as u32) + 10) as nat)
    } else {
        None
    }
}

pub open spec fn prepend(c: char, rest: Option<Seq<char>>) -> Option<Seq<char>> {
    match rest {
        Some(r) => Some(seq![c] + r),
        None => None,
    }
}

/// The text that the body of a double-quoted JavaScript string literal
/// stands for, or nothing when it is not a valid body: a raw `"`, `\`,
/// newline or carriage return cannot stand alone; the escapes `\"`, `\\`,
/// `\n`, `\r`, `\t` and `\uXXXX` (for a code point that is a character) are
/// read; every other character stands for itself.
pub open spec fn js_unescape(s: Seq<char>) -> Option<Seq<char>>
    decreases s.len(),
{
    if s.len() == 0 {
        Some(Seq::<char>::empty())
    } else if s[0] == '\\' {
        if s.len() < 2 {
            None
        } else if s[1] == '"' || s[1] == '\\' {
            prepend(s[1], js_unescape(s.subrange(2, s.len() as int)))
        } else if s[1] == 'n' {
            prepend('\n', js_unescape(s.subrange(2, s.len() as int)))
        } else if s[1] == 'r' {
            prepend('\r', js_unescape(s.subrange(2, s.len() as int)))
        } else if s[1] == 't' {
            prepend('\t', js_unescape(s.subrange(2, s.len() as int)))
        } else if s[1] == 'u' && s.len() >= 6 && hex_value(s[2]) is Some && hex_value(s[3]) is Some
            && hex_value(s[4]) is Some && hex_value(s[5]) is Some {
            let v = 4096 * hex_value(s[2])->0 + 256 * hex_value(s[3])->0 + 16 * hex_value(
                s[4],
            )->0 + hex_value(s[5])->0;
            if v < 0xd800 || (0xe000 <= v && v <= 0xffff) {
                prepend((v as u32) as char, js_unescape(s.subrange(6, s.len() as int)))
            } else {
                None
            }
        } else {
            None
        }
    } else if s[0] == '"' || s[0] == '\n' || s[0] == '\r' {
        None
    } else {
        prepend(s[0], js_unescape(s.drop_first()))
    }
}

proof fn lemma_unescape_one(c: char, t: Seq<char>)
    ensures
        js_unescape(js_escape_char(c) + t) == prepend(c, js_unescape(t)),
{
    let e = js_escape_char(c) + t;
    if c == '"' || c == '\\' || c == '\n' || c == '\r' || c == '\t' {
        assert(e.subrange(2, e.len() as int) =~= t);
    } else if (c as u32) < 0x20 {
        let v = c as u32;
        let hi = (v / 16) as nat;
        let lo = (v % 16) as nat;
        assert(hex_value(hex_digit(0)) == Some(0nat));
        assert(hex_value(hex_digit(hi)) == Some(hi));
        assert(hex_value(hex_digit(lo)) == Some(lo));
        assert(e[2] == '0' && e[3] == '0' && e[4] == hex_digit(hi) && e[5] == hex_digit(lo));
        assert(e.subrange(6, e.len() as int) =~= t);
        assert(16 * hi + lo == v);
        assert(((16 * hi + lo) as u32) as char == c);
    } else {
        assert(e.drop_first() =~= t);
    }
}

/// A string handed to the page through `js_str` arrives unchanged: the
/// literal's body is a valid JavaScript string body that stands for exactly
/// the original text, so no text can end the literal early or inject code.
pub proof fn law_js_str_round_trip(s: Seq<char>)
    ensures
        js_unescape(js_escape(s)) == Some(s),
    decreases s.len(),
{
    if s.len() > 0 {
        law_js_str_round_trip(s.drop_first());
        lemma_unescape_one(s[0], js_escape(s.drop_first()));
        assert(seq![s[0]] + s.drop_first() =~= s);
    }
}


/// No character of `s` is a control character below U+0020.
pub open spec fn no_control_chars(s: Seq<char>) -> bool {
    forall|i: int| 0 <= i < s.len() ==> (#[trigger] s[i] as u32) >= 0x20
}

proof fn lemma_escape_char_printable(c: char)
    ensures
        no_control_chars(js_escape_char(c)),
{
    if (c as u32) < 0x20 && c != '\n' && c != '\r' && c != '\t' {
        let v = c as u32;
        let hi = (v / 16) as nat;
        let lo = (v % 16) as nat;
        assert(hex_digit(hi) as u32 >= 0x30);
        assert(hex_digit(lo) as u32 >= 0x30);
    }
}

proof fn lemma_escape_printable(s: Seq<char>)
    ensures
        no_control_chars(js_escape(s)),
    decreases s.len(),
{
    if s.len() > 0 {
        lemma_escape_printable(s.drop_first());
        lemma_escape_char_printable(s[0]);
        let a = js_escape_char(s[0]);
        let b = js_escape(s.drop_first());
        assert forall|i: int| 0 <= i < (a + b).len() implies ((#[trigger] (a + b)[i]) as u32)
            >= 0x20 by {
            if i < a.len() {
                assert((a + b)[i] == a[i]);
            } else {
                assert((a + b)[i] == b[i - a.len()]);
            }
        }
    }
}

/// The literal that `js_str` writes holds no control character below
/// U+0020: raw newlines, tabs and the like always appear escaped, so the
/// literal stays on one line of script.
pub proof fn law_js_literal_has_no_control_chars(s: Seq<char>)
    ensures
        no_control_chars(js_literal(s)),
        js_literal(s).len() >= 2,
        js_literal(s)[0] == '"',
        js_literal(s).last() == '"',
{
    lemma_escape_printable(s);
    let e = js_escape(s);
    let l = js_literal(s);
    assert forall|i: int| 0 <= i < l.len() implies ((#[trigger] l[i]) as u32) >= 0x20 by {
        if i == 0 || i == l.len() - 1 {
        } else {
            assert(l[i] == e[i - 1]);
        }
    }
}


/// `s` never has an `i` directly before a `v`.
spec fn no_iv(s: Seq<char>) -> bool {
    forall|j: int| 0 <= j < s.len() - 1 ==> !(#[trigger] s[j] == 'i' && s[j + 1] == 'v')
}

proof fn lemma_no_iv_no_active(s: Seq<char>)
    requires
        no_iv(s),
    ensures
        !contains_run(s, "active"@),
{
    reveal_strlit("active");
    if contains_run(s, "active"@) {
        let i = choose|i: int|
            0 <= i && i + "active"@.len() <= s.len() && #[trigger] s.subrange(i, i + "active"@.len())
                == "active"@;
        let w = s.subrange(i, i + 6);
        assert(w[3] == 'i' && w[4] == 'v');
        assert(s[i + 3] == 'i' && s[i + 4] == 'v');
    }
}

proof fn lemma_run_at(s: Seq<char>, p: Seq<char>, i: int)
    requires
        0 <= i,
        i + p.len() <= s.len(),
        s.subrange(i, i + p.len()) =~= p,
    ensures
        contains_run(s, p),
{
}

/// The pieces every navigation-button script holds: the lookup of the
/// button by its id, its class text, and its tooltip.
proof fn lemma_nav_button_parts(button: Seq<char>, enabled: bool, tip: Seq<char>)
    ensures
        contains_run(
            nav_button_script(button, enabled, tip),
            "getElementById('dsh-btn-"@ + button + "')"@,
        ),
        contains_run(
            nav_button_script(button, enabled, tip),
            "b.className='n-btn"@ + (if enabled {
                " active"@
            } else {
                ""@
            }) + "'"@,
        ),
        contains_run(nav_button_script(button, enabled, tip), tip),
{
    reveal_strlit("(function(){var h=document.getElementById('dsh-navbar-host');var r=h?h.shadowRoot:null;var b=r?r.getElementById('dsh-btn-");
    reveal_strlit("'):null;if(b){b.className='n-btn");
    reveal_strlit("'};\n        var t=b?b.querySelector('.n-tip'):null;if(t)t.textContent='");
    reveal_strlit("';})();");
    reveal_strlit(" active");
    reveal_strlit("");
    reveal_strlit("getElementById('dsh-btn-");
    reveal_strlit("')");
    reveal_strlit("b.className='n-btn");
    reveal_strlit("'");
    let s = nav_button_script(button, enabled, tip);
    let act = if enabled {
        " active"@
    } else {
        ""@
    };
    let n = NAV_BUTTON_PREFIX@.len() as int;
    lemma_run_at(s, "getElementById('dsh-btn-"@ + button + "')"@, n - 24);
    lemma_run_at(s, "b.className='n-btn"@ + act + "'"@, n + button.len() + 14);
    lemma_run_at(s, tip, n + button.len() + 32 + act.len() + 71);
}


/// The exit-button script looks the button up by the id `dsh-btn-exit`;
/// with the setting on it marks the button `n-btn active` and shows the tip
/// "关闭时退出 ✓", with it off it sets the plain class `n-btn`, shows
/// "关闭时隐藏" and holds no `active` at all.
pub proof fn law_nav_exit_script(enabled: bool)
    ensures
        contains_run(
            nav_button_script("exit"@, enabled, if enabled { EXIT_TIP_ON@ } else { EXIT_TIP_OFF@ }),
            "getElementById('dsh-btn-exit')"@,
        ),
        enabled ==> contains_run(
            nav_button_script("exit"@, true, EXIT_TIP_ON@),
            "b.className='n-btn active'"@,
        ) && contains_run(nav_button_script("exit"@, true, EXIT_TIP_ON@), EXIT_TIP_ON@),
        !enabled ==> contains_run(
            nav_button_script("exit"@, false, EXIT_TIP_OFF@),
            "b.className='n-btn'"@,
        ) && contains_run(nav_button_script("exit"@, false, EXIT_TIP_OFF@), EXIT_TIP_OFF@)
            && !contains_run(nav_button_script("exit"@, false, EXIT_TIP_OFF@), "active"@),
{
    let tip = if enabled {
        EXIT_TIP_ON@
    } else {
        EXIT_TIP_OFF@
    };
    lemma_nav_button_parts("exit"@, enabled, tip);
    reveal_strlit("getElementById('dsh-btn-");
    reveal_strlit("')");
    reveal_strlit("exit");
    reveal_strlit("getElementById('dsh-btn-exit')");
    assert("getElementById('dsh-btn-"@ + "exit"@ + "')"@ =~= "getElementById('dsh-btn-exit')"@);
    reveal_strlit("b.className='n-btn");
    reveal_strlit("'");
    reveal_strlit(" active");
    reveal_strlit("");
    reveal_strlit("b.className='n-btn active'");
    reveal_strlit("b.className='n-btn'");
    if enabled {
        assert("b.className='n-btn"@ + " active"@ + "'"@ =~= "b.className='n-btn active'"@);
    } else {
        assert("b.className='n-btn"@ + ""@ + "'"@ =~= "b.className='n-btn'"@);
        lemma_nav_off_has_no_active("exit"@, EXIT_TIP_OFF@);
    }
}

/// The tray-button script looks the button up by the id `dsh-btn-tray`;
/// with the setting on it marks the button `n-btn active` and shows the tip
/// "常驻任务栏 ✓", with it off it sets the plain class `n-btn`, shows
/// "不驻任务栏" and holds no `active` at all.
pub proof fn law_nav_tray_script(enabled: bool)
    ensures
        contains_run(
            nav_button_script("tray"@, enabled, if enabled { TRAY_TIP_ON@ } else { TRAY_TIP_OFF@ }),
            "getElementById('dsh-btn-tray')"@,
        ),
        enabled ==> contains_run(
            nav_button_script("tray"@, true, TRAY_TIP_ON@),
            "b.className='n-btn active'"@,
        ) && contains_run(nav_button_script("tray"@, true, TRAY_TIP_ON@), TRAY_TIP_ON@),
        !enabled ==> contains_run(
            nav_button_script("tray"@, false, TRAY_TIP_OFF@),
            "b.className='n-btn'"@,
        ) && contains_run(nav_button_script("tray"@, false, TRAY_TIP_OFF@), TRAY_TIP_OFF@)
            && !contains_run(nav_button_script("tray"@, false, TRAY_TIP_OFF@), "active"@),
{
    let tip = if enabled {
        TRAY_TIP_ON@
    } else {
        TRAY_TIP_OFF@
    };
    lemma_nav_button_parts("tray"@, enabled, tip);
    reveal_strlit("getElementById('dsh-btn-");
    reveal_strlit("')");
    reveal_strlit("tray");
    reveal_strlit("getElementById('dsh-btn-tray')");
    assert("getElementById('dsh-btn-"@ + "tray"@ + "')"@ =~= "getElementById('dsh-btn-tray')"@);
    reveal_strlit("b.className='n-btn");
    reveal_strlit("'");
    reveal_strlit(" active");
    reveal_strlit("");
    reveal_strlit("b.className='n-btn active'");
    reveal_strlit("b.className='n-btn'");
    if enabled {
        assert("b.className='n-btn"@ + " active"@ + "'"@ =~= "b.className='n-btn active'"@);
    } else {
        assert("b.className='n-btn"@ + ""@ + "'"@ =~= "b.className='n-btn'"@);
        lemma_nav_off_has_no_active("tray"@, TRAY_TIP_OFF@);
    }
}

/// With the setting off, a button script whose name and tip have no `i`
/// before a `v` holds no `active`.
proof fn lemma_nav_off_has_no_active(button: Seq<char>, tip: Seq<char>)
    requires
        button == "exit"@ || button == "tray"@,
        tip == EXIT_TIP_OFF@ || tip == TRAY_TIP_OFF@,
    ensures
        !contains_run(nav_button_script(button, false, tip), "active"@),
{
    reveal_strlit("(function(){var h=document.getElementById('dsh-navbar-host');var r=h?h.shadowRoot:null;var b=r?r.getElementById('dsh-btn-");
    reveal_strlit("'):null;if(b){b.className='n-btn");
    reveal_strlit("'};\n        var t=b?b.querySelector('.n-tip'):null;if(t)t.textContent='");
    reveal_strlit("';})();");
    reveal_strlit("");
    reveal_strlit("exit");
    reveal_strlit("tray");
    reveal_strlit("关闭时隐藏");
    reveal_strlit("不驻任务栏");
    let s = nav_button_script(button, false, tip);
    assert(no_iv(s));
    lemma_no_iv_no_active(s);
}


/// Joining is compositional: the join of two non-empty lists is the join of
/// the first, one `,`, and the join of the second; a single item stands
/// alone, and nothing joins to nothing. So `k` items are separated by
/// exactly `k - 1` commas of the join's own.
pub proof fn law_join_commas_concat(a: Seq<Seq<char>>, b: Seq<Seq<char>>, x: Seq<char>)
    ensures
        a.len() > 0 && b.len() > 0 ==> join_commas(a + b) == join_commas(a) + ","@ + join_commas(b),
        join_commas(seq![x]) == x,
        join_commas(Seq::<Seq<char>>::empty()).len() == 0,
    decreases b.len(),
{
    if a.len() > 0 && b.len() > 0 {
        let ab = a + b;
        assert(ab.drop_last() =~= a + b.drop_last());
        assert(ab.last() == b.last());
        if b.len() == 1 {
            assert(b.drop_last() =~= Seq::<Seq<char>>::empty());
            assert(ab.drop_last() =~= a);
            assert(join_commas(b) == b[0]);
        } else {
            law_join_commas_concat(a, b.drop_last(), x);
            assert(join_commas(ab) == join_commas(a + b.drop_last()) + ","@ + b.last());
            assert(join_commas(b) == join_commas(b.drop_last()) + ","@ + b.last());
            assert(join_commas(ab) =~= join_commas(a) + ","@ + join_commas(b));
        }
    }
    assert(seq![x].len() == 1);
}

/// One more environment result adds one `,` and its object to the list the
/// page is given: the script for `rs` followed by `r` is the script for
/// `rs` with `,` and the object for `r` put before its closing `]);`.
pub proof fn law_env_check_script_push(rs: Seq<EnvCheckResult>, r: EnvCheckResult)
    requires
        rs.len() > 0,
    ensures
        ({
            let before = ui_msg_script(Notice::EnvCheck(rs));
            let after = ui_msg_script(Notice::EnvCheck(rs.push(r)));
            after == before.subrange(0, before.len() - 3) + ","@ + env_item_js(r) + "]);"@
        }),
{
    reveal_strlit("]);");
    let f = |x: EnvCheckResult| env_item_js(x);
    let items = rs.map_values(f);
    let more = rs.push(r).map_values(f);
    assert(more =~= items + seq![env_item_js(r)]);
    law_join_commas_concat(items, seq![env_item_js(r)], env_item_js(r));
    let before = ui_msg_script(Notice::EnvCheck(rs));
    let j = join_commas(items);
    assert(before == "showEnvCheck(["@ + j + "]);"@);
    assert(before.subrange(0, before.len() - 3) =~= "showEnvCheck(["@ + j);
    assert(ui_msg_script(Notice::EnvCheck(rs.push(r))) =~= "showEnvCheck(["@ + j + ","@
        + env_item_js(r) + "]);"@);
}

/// A failure is handed to the page's `showFail` (which stops the spinner and
/// offers Retry and Exit), with the failure text as its one string
/// argument; it is never shown as a plain status line, whatever the texts.
pub proof fn law_fail_calls_show_fail(t: Seq<char>, u: Seq<char>)
    ensures
        crate::text::starts_with(ui_msg_script(Notice::Fail(t)), "showFail("@),
        ui_msg_script(Notice::Fail(t)).subrange(9, ui_msg_script(Notice::Fail(t)).len() - 2)
            == debug_str(t),
        ui_msg_script(Notice::Fail(t)).subrange(
            ui_msg_script(Notice::Fail(t)).len() - 2,
            ui_msg_script(Notice::Fail(t)).len() as int,
        ) == ");"@,
        ui_msg_script(Notice::Fail(t)) != ui_msg_script(Notice::Step(u)),
{
    reveal_strlit("showFail(");
    reveal_strlit("setStatus(");
    reveal_strlit(");");
    let f = ui_msg_script(Notice::Fail(t));
    let g = ui_msg_script(Notice::Step(u));
    assert(f.subrange(0, 9) =~= "showFail("@);
    assert(f.subrange(9, f.len() - 2) =~= debug_str(t));
    assert(f.subrange(f.len() - 2, f.len() as int) =~= ");"@);
    assert(f[1] == 'h' && g[1] == 'e');
}


/// Each kind of message calls its own function of the splash page: a step
/// sets the status line, progress marks the check in progress, results fill
/// the check panel, a failure calls `showFail` and the hand-over `showDone`.
pub proof fn law_scripts_call_their_page_functions(t: Seq<char>, rs: Seq<EnvCheckResult>)
    ensures
        crate::text::starts_with(ui_msg_script(Notice::Step(t)), "setStatus("@),
        crate::text::starts_with(ui_msg_script(Notice::EnvProgress(t)), "showEnvProgress("@),
        crate::text::starts_with(ui_msg_script(Notice::EnvCheck(rs)), "showEnvCheck(["@),
        crate::text::starts_with(ui_msg_script(Notice::Fail(t)), "showFail("@),
        ui_msg_script(Notice::Done) == "showDone();"@,
{
    reveal_strlit("setStatus(");
    reveal_strlit("showEnvProgress(");
    reveal_strlit("showEnvCheck([");
    reveal_strlit("showFail(");
    assert(ui_msg_script(Notice::Step(t)).subrange(0, 10) =~= "setStatus("@);
    assert(ui_msg_script(Notice::EnvProgress(t)).subrange(0, 16) =~= "showEnvProgress("@);
    assert(ui_msg_script(Notice::EnvCheck(rs)).subrange(0, 14) =~= "showEnvCheck(["@);
    assert(ui_msg_script(Notice::Fail(t)).subrange(0, 9) =~= "showFail("@);
}

} // verus!
